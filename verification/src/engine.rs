//! Card eligibility and effect resolution.
//!
//! `can_play_card` evaluates every condition of a card independently and
//! collects all violated ones; `apply_card_effects` resolves a card against
//! the state in a fixed order.
use vstd::prelude::*;

use crate::cards::{ActivityCard, AdditionalCost, CardAvailability, CrisisLevel, Mood, ResourceType, StatusEffect, StatusEffectApplication, TimeOfDay};
use crate::effects::{apply_scaled, dup_effect, spec_multiplier, spec_scale};
use crate::spec_clamp_add;
use crate::state::{ActiveStatusEffect, GameState, PlayerAction, ResourceSnapshot};

verus! {

/// One violated condition that keeps a card from being played. Thresholds
/// and costs are in tenths of a point.
#[derive(Debug, Clone, PartialEq, Eq)]
pub enum PlayBlock {
    MinSleep { need: u32, have: u32 },
    MaxSleep(u32),
    MinHealth(u32),
    MaxHealth(u32),
    MinMental(u32),
    MaxMental(u32),
    MinFood(u32),
    MaxFood(u32),
    RequiredMood(Mood),
    ForbiddenMood(Mood),
    WrongTimeOfDay,
    WrongDayRange(u32, u32),
    MissingObject(String),
    WrongCrisisLevel(CrisisLevel),
    /// On cooldown for this many more turns.
    OnCooldown(u32),
    OneTimeUsed,
    DailyUsed,
    NotEnoughSleep(u32),
    NotEnoughHealth(u32),
    NotEnoughMental(u32),
    NotEnoughFood(u32),
}

/// Whether a sequence of strings holds one with the given characters.
pub open spec fn spec_has_string(strings: Seq<String>, chars: Seq<char>) -> bool {
    exists|i: int| 0 <= i < strings.len() && (#[trigger] strings[i])@ == chars
}

/// The turn on which a card was last played, if any: the first matching
/// record counts.
pub open spec fn spec_cooldown_lookup(records: Seq<(u32, u32)>, id: u32) -> Option<u32>
    decreases records.len(),
{
    if records.len() == 0 {
        None
    } else if records[0].0 == id {
        Some(records[0].1)
    } else {
        spec_cooldown_lookup(records.drop_first(), id)
    }
}

/// Whether the card's cooldown keeps it from being played now.
pub open spec fn spec_on_cooldown(st: GameState, card: ActivityCard) -> bool {
    match card.cooldown {
        Some(n) => match spec_cooldown_lookup(st.card_cooldowns@, card.id) {
            Some(t) => st.spec_turn_number() - t < n,
            None => false,
        },
        None => false,
    }
}

/// Whether the card's one-time policy keeps it from being played.
pub open spec fn spec_one_time_blocked(st: GameState, card: ActivityCard) -> bool {
    card.one_time_use && st.used_one_time_cards@.contains(card.id)
}

/// Whether the card's daily-reset policy keeps it from being played today.
pub open spec fn spec_daily_blocked(st: GameState, card: ActivityCard) -> bool {
    card.availability == CardAvailability::DailyReset && st.daily_used_cards@.contains(card.id)
}

/// Whether the state can afford every resource cost of the card.
pub open spec fn spec_can_afford(st: GameState, card: ActivityCard) -> bool {
    &&& st.sleep >= card.costs.sleep_cost
    &&& st.health >= card.costs.health_cost
    &&& st.mental_health >= card.costs.mental_cost
    &&& st.food >= card.costs.food_cost
}

/// The blocks raised by required objects the state lacks, in order.
pub open spec fn spec_missing_objects(required: Seq<String>, available: Seq<String>) -> Seq<PlayBlock>
    decreases required.len(),
{
    if required.len() == 0 {
        Seq::empty()
    } else {
        spec_missing_objects(required.drop_last(), available) + (if spec_has_string(
            available,
            required.last()@,
        ) {
            Seq::empty()
        } else {
            seq![PlayBlock::MissingObject(required.last())]
        })
    }
}

/// A conditional single block: the block alone when the condition holds,
/// else nothing.
pub open spec fn spec_gate(cond: bool, b: PlayBlock) -> Seq<PlayBlock> {
    if cond {
        seq![b]
    } else {
        Seq::empty()
    }
}

/// The blocks raised by the eight per-resource thresholds, in order.
pub open spec fn spec_threshold_blocks(st: GameState, card: ActivityCard) -> Seq<PlayBlock> {
    let c = card.conditions;
    spec_gate(
        c.min_sleep is Some && st.sleep < c.min_sleep.unwrap(),
        PlayBlock::MinSleep { need: c.min_sleep.unwrap(), have: st.sleep },
    ) + spec_gate(
        c.max_sleep is Some && st.sleep > c.max_sleep.unwrap(),
        PlayBlock::MaxSleep(c.max_sleep.unwrap()),
    ) + spec_gate(
        c.min_health is Some && st.health < c.min_health.unwrap(),
        PlayBlock::MinHealth(c.min_health.unwrap()),
    ) + spec_gate(
        c.max_health is Some && st.health > c.max_health.unwrap(),
        PlayBlock::MaxHealth(c.max_health.unwrap()),
    ) + spec_gate(
        c.min_mental is Some && st.mental_health < c.min_mental.unwrap(),
        PlayBlock::MinMental(c.min_mental.unwrap()),
    ) + spec_gate(
        c.max_mental is Some && st.mental_health > c.max_mental.unwrap(),
        PlayBlock::MaxMental(c.max_mental.unwrap()),
    ) + spec_gate(
        c.min_food is Some && st.food < c.min_food.unwrap(),
        PlayBlock::MinFood(c.min_food.unwrap()),
    ) + spec_gate(
        c.max_food is Some && st.food > c.max_food.unwrap(),
        PlayBlock::MaxFood(c.max_food.unwrap()),
    )
}

/// The blocks raised by mood, time-of-day and day-range conditions, in
/// order.
pub open spec fn spec_context_blocks(st: GameState, card: ActivityCard) -> Seq<PlayBlock> {
    let c = card.conditions;
    spec_gate(
        c.required_mood is Some && st.current_mood != c.required_mood.unwrap(),
        PlayBlock::RequiredMood(c.required_mood.unwrap()),
    ) + spec_gate(
        c.forbidden_mood is Some && st.current_mood == c.forbidden_mood.unwrap(),
        PlayBlock::ForbiddenMood(c.forbidden_mood.unwrap()),
    ) + spec_gate(
        c.time_of_day is Some && !c.time_of_day.unwrap()@.contains(st.time_of_day),
        PlayBlock::WrongTimeOfDay,
    ) + spec_gate(
        c.day_range is Some && (st.current_day < c.day_range.unwrap().0 || st.current_day
            > c.day_range.unwrap().1),
        PlayBlock::WrongDayRange(c.day_range.unwrap().0, c.day_range.unwrap().1),
    )
}

/// The blocks raised by required objects and the required crisis level, in
/// order.
pub open spec fn spec_requirement_blocks(st: GameState, card: ActivityCard) -> Seq<PlayBlock> {
    let c = card.conditions;
    (match c.required_objects {
        Some(required) => spec_missing_objects(required@, st.available_objects@),
        None => Seq::empty(),
    }) + spec_gate(
        c.crisis_level is Some && st.crisis_level != c.crisis_level.unwrap(),
        PlayBlock::WrongCrisisLevel(c.crisis_level.unwrap()),
    )
}

/// The blocks raised by the cooldown, one-time and daily-reset policies,
/// in order.
pub open spec fn spec_policy_blocks(st: GameState, card: ActivityCard) -> Seq<PlayBlock> {
    spec_gate(
        spec_on_cooldown(st, card),
        PlayBlock::OnCooldown(
            (card.cooldown.unwrap() - (st.spec_turn_number() - spec_cooldown_lookup(
                st.card_cooldowns@,
                card.id,
            ).unwrap())) as u32,
        ),
    ) + spec_gate(spec_one_time_blocked(st, card), PlayBlock::OneTimeUsed) + spec_gate(
        spec_daily_blocked(st, card),
        PlayBlock::DailyUsed,
    )
}

/// The blocks raised by unaffordable resource costs, in order.
pub open spec fn spec_cost_blocks(st: GameState, card: ActivityCard) -> Seq<PlayBlock> {
    spec_gate(
        st.sleep < card.costs.sleep_cost,
        PlayBlock::NotEnoughSleep(card.costs.sleep_cost),
    ) + spec_gate(
        st.health < card.costs.health_cost,
        PlayBlock::NotEnoughHealth(card.costs.health_cost),
    ) + spec_gate(
        st.mental_health < card.costs.mental_cost,
        PlayBlock::NotEnoughMental(card.costs.mental_cost),
    ) + spec_gate(st.food < card.costs.food_cost, PlayBlock::NotEnoughFood(card.costs.food_cost))
}

/// Every violated condition of the card against the state, in evaluation
/// order. The card is playable exactly when this is empty.
pub open spec fn spec_blocks(st: GameState, card: ActivityCard) -> Seq<PlayBlock> {
    spec_threshold_blocks(st, card) + spec_context_blocks(st, card) + spec_requirement_blocks(
        st,
        card,
    ) + spec_policy_blocks(st, card) + spec_cost_blocks(st, card)
}

/// A card is playable exactly when no condition blocks it.
pub open spec fn spec_can_play(st: GameState, card: ActivityCard) -> bool {
    spec_blocks(st, card).len() == 0
}

/// Whether a vector of strings holds one equal to the given slice.
fn has_string(strings: &Vec<String>, wanted: &String) -> (r: bool)
    ensures
        r == spec_has_string(strings@, wanted@),
{
    let n = strings.len();
    let mut i: usize = 0;
    while i < n
        invariant
            0 <= i <= n,
            n == strings@.len(),
            forall|k: int| 0 <= k < i ==> (#[trigger] strings@[k])@ != wanted@,
        decreases n - i,
    {
        let hit: bool = strings[i] == *wanted;
        if hit {
            return true;
        }
        i = i + 1;
    }
    false
}

/// Whether a vector of ids holds the given id.
pub(crate) fn has_id(ids: &Vec<u32>, wanted: u32) -> (r: bool)
    ensures
        r == ids@.contains(wanted),
{
    let n = ids.len();
    let mut i: usize = 0;
    while i < n
        invariant
            0 <= i <= n,
            n == ids@.len(),
            forall|k: int| 0 <= k < i ==> ids@[k] != wanted,
        decreases n - i,
    {
        if ids[i] == wanted {
            return true;
        }
        i = i + 1;
    }
    false
}

/// Whether a vector of time-of-day values holds the given one.
fn has_time_of_day(times: &Vec<TimeOfDay>, wanted: TimeOfDay) -> (r: bool)
    ensures
        r == times@.contains(wanted),
{
    let n = times.len();
    let mut i: usize = 0;
    while i < n
        invariant
            0 <= i <= n,
            n == times@.len(),
            forall|k: int| 0 <= k < i ==> times@[k] != wanted,
        decreases n - i,
    {
        if times[i] == wanted {
            return true;
        }
        i = i + 1;
    }
    false
}

/// Find the turn on which a card was last played, if recorded.
fn cooldown_lookup(records: &Vec<(u32, u32)>, id: u32) -> (r: Option<u32>)
    ensures
        r == spec_cooldown_lookup(records@, id),
{
    let n = records.len();
    let mut i: usize = 0;
    proof {
        assert(records@.skip(0) =~= records@);
    }
    while i < n
        invariant
            0 <= i <= n,
            n == records@.len(),
            spec_cooldown_lookup(records@, id) == spec_cooldown_lookup(records@.skip(i as int), id),
        decreases n - i,
    {
        proof {
            assert(records@.skip(i as int).drop_first() =~= records@.skip(i + 1));
            assert(records@.skip(i as int)[0] == records@[i as int]);
        }
        if records[i].0 == id {
            return Some(records[i].1);
        }
        i = i + 1;
    }
    None
}

/// A successful cooldown lookup points at a record in the list.
pub proof fn lemma_cooldown_lookup_in_range(records: Seq<(u32, u32)>, id: u32)
    ensures
        spec_cooldown_lookup(records, id) matches Some(t) ==> exists|k: int|
            0 <= k < records.len() && #[trigger] records[k] == (id, t),
    decreases records.len(),
{
    if records.len() > 0 && records[0].0 != id {
        lemma_cooldown_lookup_in_range(records.drop_first(), id);
        match spec_cooldown_lookup(records, id) {
            Some(t) => {
                let k = choose|k: int|
                    0 <= k < records.drop_first().len() && #[trigger] records.drop_first()[k] == (
                        id,
                        t,
                    );
                assert(records[k + 1] == (id, t));
            },
            None => {},
        }
    }
}

impl GameState {
    /// Whether the state can afford every resource cost of the card.
    pub fn can_afford_costs(&self, card: &ActivityCard) -> (r: bool)
        ensures
            r == spec_can_afford(*self, *card),
    {
        self.sleep >= card.costs.sleep_cost && self.health >= card.costs.health_cost
            && self.mental_health >= card.costs.mental_cost && self.food >= card.costs.food_cost
    }

    /// The blocks raised by the eight per-resource thresholds.
    #[verifier::rlimit(100)]
    fn threshold_blocks(&self, card: &ActivityCard) -> (blocks: Vec<PlayBlock>)
        ensures
            blocks@ == spec_threshold_blocks(*self, *card),
    {
        let mut blocks: Vec<PlayBlock> = Vec::new();
        let c = &card.conditions;
        if let Some(v) = c.min_sleep {
            if self.sleep < v {
                blocks.push(PlayBlock::MinSleep { need: v, have: self.sleep });
            }
        }
        proof {
            assert(blocks@ =~= spec_gate(
                card.conditions.min_sleep is Some && self.sleep < card.conditions.min_sleep.unwrap(),
                PlayBlock::MinSleep { need: card.conditions.min_sleep.unwrap(), have: self.sleep },
            ));
        }
        let ghost p1 = blocks@;
        if let Some(v) = c.max_sleep {
            if self.sleep > v {
                blocks.push(PlayBlock::MaxSleep(v));
            }
        }
        proof {
            assert(blocks@ =~= p1 + spec_gate(
                card.conditions.max_sleep is Some && self.sleep > card.conditions.max_sleep.unwrap(),
                PlayBlock::MaxSleep(card.conditions.max_sleep.unwrap()),
            ));
        }
        let ghost p2 = blocks@;
        if let Some(v) = c.min_health {
            if self.health < v {
                blocks.push(PlayBlock::MinHealth(v));
            }
        }
        proof {
            assert(blocks@ =~= p2 + spec_gate(
                card.conditions.min_health is Some && self.health < card.conditions.min_health.unwrap(),
                PlayBlock::MinHealth(card.conditions.min_health.unwrap()),
            ));
        }
        let ghost p3 = blocks@;
        if let Some(v) = c.max_health {
            if self.health > v {
                blocks.push(PlayBlock::MaxHealth(v));
            }
        }
        proof {
            assert(blocks@ =~= p3 + spec_gate(
                card.conditions.max_health is Some && self.health > card.conditions.max_health.unwrap(),
                PlayBlock::MaxHealth(card.conditions.max_health.unwrap()),
            ));
        }
        let ghost p4 = blocks@;
        if let Some(v) = c.min_mental {
            if self.mental_health < v {
                blocks.push(PlayBlock::MinMental(v));
            }
        }
        proof {
            assert(blocks@ =~= p4 + spec_gate(
                card.conditions.min_mental is Some && self.mental_health < card.conditions.min_mental.unwrap(),
                PlayBlock::MinMental(card.conditions.min_mental.unwrap()),
            ));
        }
        let ghost p5 = blocks@;
        if let Some(v) = c.max_mental {
            if self.mental_health > v {
                blocks.push(PlayBlock::MaxMental(v));
            }
        }
        proof {
            assert(blocks@ =~= p5 + spec_gate(
                card.conditions.max_mental is Some && self.mental_health > card.conditions.max_mental.unwrap(),
                PlayBlock::MaxMental(card.conditions.max_mental.unwrap()),
            ));
        }
        let ghost p6 = blocks@;
        if let Some(v) = c.min_food {
            if self.food < v {
                blocks.push(PlayBlock::MinFood(v));
            }
        }
        proof {
            assert(blocks@ =~= p6 + spec_gate(
                card.conditions.min_food is Some && self.food < card.conditions.min_food.unwrap(),
                PlayBlock::MinFood(card.conditions.min_food.unwrap()),
            ));
        }
        let ghost p7 = blocks@;
        if let Some(v) = c.max_food {
            if self.food > v {
                blocks.push(PlayBlock::MaxFood(v));
            }
        }
        proof {
            assert(blocks@ =~= p7 + spec_gate(
                card.conditions.max_food is Some && self.food > card.conditions.max_food.unwrap(),
                PlayBlock::MaxFood(card.conditions.max_food.unwrap()),
            ));
        }
        blocks
    }

    /// The blocks raised by mood, time-of-day and day-range conditions.
    fn context_blocks(&self, card: &ActivityCard) -> (blocks: Vec<PlayBlock>)
        ensures
            blocks@ == spec_context_blocks(*self, *card),
    {
        let mut blocks: Vec<PlayBlock> = Vec::new();
        let c = &card.conditions;
        if let Some(m) = c.required_mood {
            if self.current_mood != m {
                blocks.push(PlayBlock::RequiredMood(m));
            }
        }
        proof {
            assert(blocks@ =~= spec_gate(
                card.conditions.required_mood is Some && self.current_mood != card.conditions.required_mood.unwrap(),
                PlayBlock::RequiredMood(card.conditions.required_mood.unwrap()),
            ));
        }
        let ghost p1 = blocks@;
        if let Some(m) = c.forbidden_mood {
            if self.current_mood == m {
                blocks.push(PlayBlock::ForbiddenMood(m));
            }
        }
        proof {
            assert(blocks@ =~= p1 + spec_gate(
                card.conditions.forbidden_mood is Some && self.current_mood == card.conditions.forbidden_mood.unwrap(),
                PlayBlock::ForbiddenMood(card.conditions.forbidden_mood.unwrap()),
            ));
        }
        let ghost p2 = blocks@;
        if let Some(allowed) = &c.time_of_day {
            if !has_time_of_day(allowed, self.time_of_day) {
                blocks.push(PlayBlock::WrongTimeOfDay);
            }
        }
        proof {
            assert(blocks@ =~= p2 + spec_gate(
                card.conditions.time_of_day is Some && !card.conditions.time_of_day.unwrap()@.contains(self.time_of_day),
                PlayBlock::WrongTimeOfDay,
            ));
        }
        let ghost p3 = blocks@;
        if let Some((lo, hi)) = c.day_range {
            if self.current_day < lo || self.current_day > hi {
                blocks.push(PlayBlock::WrongDayRange(lo, hi));
            }
        }
        proof {
            assert(blocks@ =~= p3 + spec_gate(
                card.conditions.day_range is Some && (self.current_day < card.conditions.day_range.unwrap().0 || self.current_day > card.conditions.day_range.unwrap().1),
                PlayBlock::WrongDayRange(card.conditions.day_range.unwrap().0, card.conditions.day_range.unwrap().1),
            ));
        }
        blocks
    }

    /// The blocks raised by required objects and the required crisis level.
    fn requirement_blocks(&self, card: &ActivityCard) -> (blocks: Vec<PlayBlock>)
        ensures
            blocks@ == spec_requirement_blocks(*self, *card),
    {
        let mut blocks: Vec<PlayBlock> = Vec::new();
        let c = &card.conditions;
        if let Some(required) = &c.required_objects {
            let n = required.len();
            let mut i: usize = 0;
            while i < n
                invariant
                    0 <= i <= n,
                    n == required@.len(),
                    blocks@ == spec_missing_objects(
                        required@.take(i as int),
                        self.available_objects@,
                    ),
                decreases n - i,
            {
                proof {
                    assert(required@.take(i + 1).drop_last() =~= required@.take(i as int));
                    assert(required@.take(i + 1).last() == required@[i as int]);
                }
                if !has_string(&self.available_objects, &required[i]) {
                    blocks.push(PlayBlock::MissingObject(required[i].clone()));
                }
                i = i + 1;
            }
            proof {
                assert(required@.take(n as int) =~= required@);
            }
        }
        proof {
            assert(blocks@ =~= (match card.conditions.required_objects {
                Some(required) => spec_missing_objects(required@, self.available_objects@),
                None => Seq::empty(),
            }));
        }
        let ghost p1 = blocks@;
        if let Some(level) = c.crisis_level {
            if self.crisis_level != level {
                blocks.push(PlayBlock::WrongCrisisLevel(level));
            }
        }
        proof {
            assert(blocks@ =~= p1 + spec_gate(
                card.conditions.crisis_level is Some && self.crisis_level != card.conditions.crisis_level.unwrap(),
                PlayBlock::WrongCrisisLevel(card.conditions.crisis_level.unwrap()),
            ));
        }
        blocks
    }

    /// The blocks raised by the cooldown, one-time and daily-reset
    /// policies.
    fn policy_blocks(&self, card: &ActivityCard) -> (blocks: Vec<PlayBlock>)
        requires
            self.wf(),
        ensures
            blocks@ == spec_policy_blocks(*self, *card),
    {
        let mut blocks: Vec<PlayBlock> = Vec::new();
        if let Some(n) = card.cooldown {
            if let Some(t) = cooldown_lookup(&self.card_cooldowns, card.id) {
                proof {
                    lemma_cooldown_lookup_in_range(self.card_cooldowns@, card.id);
                }
                let turn = self.turn_number();
                let turns_since = turn - t;
                if turns_since < n {
                    blocks.push(PlayBlock::OnCooldown(n - turns_since));
                }
            }
        }
        proof {
            assert(blocks@ =~= spec_gate(
                spec_on_cooldown(*self, *card),
                PlayBlock::OnCooldown(
                    (card.cooldown.unwrap() - (self.spec_turn_number() - spec_cooldown_lookup(
                        self.card_cooldowns@,
                        card.id,
                    ).unwrap())) as u32,
                ),
            ));
        }
        let ghost p1 = blocks@;
        if card.one_time_use && has_id(&self.used_one_time_cards, card.id) {
            blocks.push(PlayBlock::OneTimeUsed);
        }
        proof {
            assert(blocks@ =~= p1 + spec_gate(spec_one_time_blocked(*self, *card), PlayBlock::OneTimeUsed));
        }
        let ghost p2 = blocks@;
        if card.availability == CardAvailability::DailyReset && has_id(
            &self.daily_used_cards,
            card.id,
        ) {
            blocks.push(PlayBlock::DailyUsed);
        }
        proof {
            assert(blocks@ =~= p2 + spec_gate(spec_daily_blocked(*self, *card), PlayBlock::DailyUsed));
        }
        blocks
    }

    /// The blocks raised by unaffordable resource costs.
    fn cost_blocks(&self, card: &ActivityCard) -> (blocks: Vec<PlayBlock>)
        ensures
            blocks@ == spec_cost_blocks(*self, *card),
    {
        let mut blocks: Vec<PlayBlock> = Vec::new();
        if self.sleep < card.costs.sleep_cost {
            blocks.push(PlayBlock::NotEnoughSleep(card.costs.sleep_cost));
        }
        proof {
            assert(blocks@ =~= spec_gate(
                self.sleep < card.costs.sleep_cost,
                PlayBlock::NotEnoughSleep(card.costs.sleep_cost),
            ));
        }
        let ghost p1 = blocks@;
        if self.health < card.costs.health_cost {
            blocks.push(PlayBlock::NotEnoughHealth(card.costs.health_cost));
        }
        proof {
            assert(blocks@ =~= p1 + spec_gate(
                self.health < card.costs.health_cost,
                PlayBlock::NotEnoughHealth(card.costs.health_cost),
            ));
        }
        let ghost p2 = blocks@;
        if self.mental_health < card.costs.mental_cost {
            blocks.push(PlayBlock::NotEnoughMental(card.costs.mental_cost));
        }
        proof {
            assert(blocks@ =~= p2 + spec_gate(
                self.mental_health < card.costs.mental_cost,
                PlayBlock::NotEnoughMental(card.costs.mental_cost),
            ));
        }
        let ghost p3 = blocks@;
        if self.food < card.costs.food_cost {
            blocks.push(PlayBlock::NotEnoughFood(card.costs.food_cost));
        }
        proof {
            assert(blocks@ =~= p3 + spec_gate(
                self.food < card.costs.food_cost,
                PlayBlock::NotEnoughFood(card.costs.food_cost),
            ));
        }
        blocks
    }

    /// Evaluate every condition of the card against the current state and
    /// collect all violated ones, in a fixed order; the card is playable
    /// exactly when the collected list is empty.
    pub fn can_play_card(&self, card: &ActivityCard) -> (r: (bool, Vec<PlayBlock>))
        requires
            self.wf(),
        ensures
            r.1@ == spec_blocks(*self, *card),
            r.0 == spec_can_play(*self, *card),
    {
        let mut blocks = self.threshold_blocks(card);
        let mut context = self.context_blocks(card);
        let mut requirements = self.requirement_blocks(card);
        let mut policies = self.policy_blocks(card);
        let mut costs = self.cost_blocks(card);
        blocks.append(&mut context);
        blocks.append(&mut requirements);
        blocks.append(&mut policies);
        blocks.append(&mut costs);
        let playable = blocks.len() == 0;
        (playable, blocks)
    }
}


/// A resource value after paying a cost: floored at zero, never negative.
pub open spec fn spec_pay(v: int, cost: int) -> int {
    if v - cost < 0 {
        0
    } else {
        v - cost
    }
}

/// The state after paying the card's resource costs and applying its
/// multiplier-scaled effect deltas: only the four resources change.
pub open spec fn spec_after_costs_and_effects(st: GameState, card: ActivityCard) -> GameState {
    let m = spec_multiplier(st.status_effects@);
    GameState {
        sleep: spec_clamp_add(
            spec_pay(st.sleep as int, card.costs.sleep_cost as int),
            spec_scale(card.effects.sleep as int, m),
        ) as u32,
        health: spec_clamp_add(
            spec_pay(st.health as int, card.costs.health_cost as int),
            spec_scale(card.effects.health as int, m),
        ) as u32,
        mental_health: spec_clamp_add(
            spec_pay(st.mental_health as int, card.costs.mental_cost as int),
            spec_scale(card.effects.mental as int, m),
        ) as u32,
        food: spec_clamp_add(
            spec_pay(st.food as int, card.costs.food_cost as int),
            spec_scale(card.effects.food as int, m),
        ) as u32,
        ..st
    }
}

/// The state after processing a card's extra costs in order: counting
/// negative cards (saturating), locking resources and zeroing consumed
/// ones. Only scalar fields change.
pub open spec fn spec_apply_additional(costs: Seq<AdditionalCost>, st: GameState) -> GameState
    decreases costs.len(),
{
    if costs.len() == 0 {
        st
    } else {
        let prev = spec_apply_additional(costs.drop_last(), st);
        match costs.last() {
            AdditionalCost::AddNegativeCard => GameState {
                negative_card_count: if prev.negative_card_count < u32::MAX {
                    (prev.negative_card_count + 1) as u32
                } else {
                    u32::MAX
                },
                ..prev
            },
            AdditionalCost::LockResource(kind, turns) => match kind {
                ResourceType::Sleep => GameState { locked_sleep: turns, ..prev },
                ResourceType::Health => GameState { locked_health: turns, ..prev },
                ResourceType::Mental => GameState { locked_mental: turns, ..prev },
                ResourceType::Food => GameState { locked_food: turns, ..prev },
            },
            AdditionalCost::ConsumeAll(kind) => prev.spec_with_resource(kind, 0),
        }
    }
}

/// All scalar fields of the state after a card resolves: costs paid,
/// scaled effects applied, extra costs processed.
pub open spec fn spec_scalars_after_apply(st: GameState, card: ActivityCard) -> GameState {
    spec_apply_additional(card.costs.additional_costs@, spec_after_costs_and_effects(st, card))
}

/// A status effect applied while a card resolved; also the payload of the
/// matching outbound event.
#[derive(Debug, Clone, PartialEq)]
pub struct StatusEffectApplied {
    pub effect: StatusEffect,
    pub duration: u32,
    pub source: String,
}

/// The active effects a card adds when played, in card order: each enters
/// with weight one and the card's name as source.
pub open spec fn spec_added_effects(card: ActivityCard) -> Seq<ActiveStatusEffect> {
    card.status_effects@.map_values(
        |a: StatusEffectApplication|
            (ActiveStatusEffect {
                effect: a.effect,
                remaining_duration: a.duration,
                intensity_tenths: 10,
                source: card.name,
            }),
    )
}

/// The applied-effect events a card emits when played, in card order.
pub open spec fn spec_applied_events(card: ActivityCard) -> Seq<StatusEffectApplied> {
    card.status_effects@.map_values(
        |a: StatusEffectApplication|
            (StatusEffectApplied { effect: a.effect, duration: a.duration, source: card.name }),
    )
}

impl GameState {
    /// Resolve a played card against the state, in a fixed order: pay
    /// costs (floored at zero), apply multiplier-scaled effects (clamped),
    /// add the card's status effects, process extra costs, record the
    /// cooldown and usage policies, recompute the crisis level, and append
    /// an action snapshot to the history. Returns the applied-effect
    /// events in order.
    pub fn apply_card_effects(&mut self, card: &ActivityCard) -> (events: Vec<StatusEffectApplied>)
        requires
            old(self).wf(),
            old(self).action_history@.len() + 2 < u32::MAX,
        ensures
            *final(self) == (GameState {
                status_effects: final(self).status_effects,
                card_cooldowns: final(self).card_cooldowns,
                used_one_time_cards: final(self).used_one_time_cards,
                daily_used_cards: final(self).daily_used_cards,
                crisis_level: final(self).crisis_level,
                action_history: final(self).action_history,
                ..spec_scalars_after_apply(*old(self), *card)
            }),
            final(self).status_effects@ == old(self).status_effects@ + spec_added_effects(*card),
            final(self).card_cooldowns@ == (if card.cooldown is Some {
                seq![(card.id, (old(self).action_history@.len() + 1) as u32)]
                    + old(self).card_cooldowns@
            } else {
                old(self).card_cooldowns@
            }),
            final(self).used_one_time_cards@ == (if card.one_time_use {
                old(self).used_one_time_cards@.push(card.id)
            } else {
                old(self).used_one_time_cards@
            }),
            final(self).daily_used_cards@ == (if card.availability == CardAvailability::DailyReset {
                old(self).daily_used_cards@.push(card.id)
            } else {
                old(self).daily_used_cards@
            }),
            final(self).crisis_level == final(self).spec_crisis_now(),
            final(self).action_history@ == old(self).action_history@.push(
                PlayerAction {
                    turn: (old(self).action_history@.len() + 1) as u32,
                    resources_before: (ResourceSnapshot {
                        sleep: old(self).sleep,
                        health: old(self).health,
                        mental: old(self).mental_health,
                        food: old(self).food,
                    }),
                    resources_after: (ResourceSnapshot {
                        sleep: final(self).sleep,
                        health: final(self).health,
                        mental: final(self).mental_health,
                        food: final(self).food,
                    }),
                    timestamp_second: old(self).second_of_day,
                },
            ),
            events@ == spec_applied_events(*card),
            final(self).spec_turn_number() == old(self).spec_turn_number() + 1,
            final(self).wf(),
    {
        let turn = self.turn_number();
        let resources_before = ResourceSnapshot {
            sleep: self.sleep,
            health: self.health,
            mental: self.mental_health,
            food: self.food,
        };

        // Pay costs, floored at zero.
        self.sleep = if card.costs.sleep_cost >= self.sleep { 0 } else { self.sleep - card.costs.sleep_cost };
        self.health = if card.costs.health_cost >= self.health { 0 } else { self.health - card.costs.health_cost };
        self.mental_health = if card.costs.mental_cost >= self.mental_health { 0 } else { self.mental_health - card.costs.mental_cost };
        self.food = if card.costs.food_cost >= self.food { 0 } else { self.food - card.costs.food_cost };

        // Apply effects scaled by the multiplier, clamped into range.
        let m = self.calculate_effect_multiplier();
        self.sleep = apply_scaled(self.sleep, card.effects.sleep, m);
        self.health = apply_scaled(self.health, card.effects.health, m);
        self.mental_health = apply_scaled(self.mental_health, card.effects.mental, m);
        self.food = apply_scaled(self.food, card.effects.food, m);

        proof {
            assert(*self == (GameState {
                status_effects: self.status_effects,
                ..spec_after_costs_and_effects(*old(self), *card)
            }));
        }

        // Add the card's status effects, collecting the applied events.
        let ghost mid = *self;
        let mut events: Vec<StatusEffectApplied> = Vec::new();
        let n = card.status_effects.len();
        let mut i: usize = 0;
        while i < n
            invariant
                0 <= i <= n,
                n == card.status_effects@.len(),
                *self == (GameState { status_effects: self.status_effects, ..mid }),
                self.status_effects@ =~= mid.status_effects@ + spec_added_effects(*card).take(
                    i as int,
                ),
                events@ =~= spec_applied_events(*card).take(i as int),
            decreases n - i,
        {
            let a = &card.status_effects[i];
            self.status_effects.push(ActiveStatusEffect {
                effect: dup_effect(&a.effect),
                remaining_duration: a.duration,
                intensity_tenths: 10,
                source: card.name.clone(),
            });
            events.push(StatusEffectApplied {
                effect: dup_effect(&a.effect),
                duration: a.duration,
                source: card.name.clone(),
            });
            i = i + 1;
        }
        proof {
            assert(self.status_effects@ =~= mid.status_effects@ + spec_added_effects(*card));
            assert(events@ =~= spec_applied_events(*card));
        }

        // Process the card's extra costs in order.
        let extras = &card.costs.additional_costs;
        let n_extra = extras.len();
        let mut j: usize = 0;
        while j < n_extra
            invariant
                0 <= j <= n_extra,
                n_extra == extras@.len(),
                extras == &card.costs.additional_costs,
                *self == (GameState {
                    status_effects: self.status_effects,
                    ..spec_apply_additional(
                        extras@.take(j as int),
                        spec_after_costs_and_effects(*old(self), *card),
                    )
                }),
                self.status_effects@ == old(self).status_effects@ + spec_added_effects(*card),
            decreases n_extra - j,
        {
            proof {
                assert(extras@.take(j + 1).drop_last() =~= extras@.take(j as int));
                assert(extras@.take(j + 1).last() == extras@[j as int]);
            }
            match &extras[j] {
                AdditionalCost::AddNegativeCard => {
                    if self.negative_card_count < u32::MAX {
                        self.negative_card_count = self.negative_card_count + 1;
                    }
                },
                AdditionalCost::LockResource(kind, turns) => {
                    match kind {
                        ResourceType::Sleep => { self.locked_sleep = *turns; },
                        ResourceType::Health => { self.locked_health = *turns; },
                        ResourceType::Mental => { self.locked_mental = *turns; },
                        ResourceType::Food => { self.locked_food = *turns; },
                    }
                },
                AdditionalCost::ConsumeAll(kind) => {
                    match kind {
                        ResourceType::Sleep => { self.sleep = 0; },
                        ResourceType::Health => { self.health = 0; },
                        ResourceType::Mental => { self.mental_health = 0; },
                        ResourceType::Food => { self.food = 0; },
                    }
                },
            }
            j = j + 1;
        }
        proof {
            assert(extras@.take(n_extra as int) =~= extras@);
            lemma_apply_additional_frame(extras@, spec_after_costs_and_effects(*old(self), *card));
        }

        // Record the cooldown against the turn on which the card resolved.
        if card.cooldown.is_some() {
            self.card_cooldowns.insert(0, (card.id, turn));
            proof {
                assert(self.card_cooldowns@ =~= seq![
                    (card.id, (old(self).action_history@.len() + 1) as u32),
                ] + old(self).card_cooldowns@);
            }
        }

        // Record the usage policies.
        if card.one_time_use {
            self.used_one_time_cards.push(card.id);
        }
        if card.availability == CardAvailability::DailyReset {
            self.daily_used_cards.push(card.id);
        }

        // Recompute the derived crisis level.
        let level = self.calculate_crisis_level();
        self.crisis_level = level;

        // Append the action snapshot.
        let resources_after = ResourceSnapshot {
            sleep: self.sleep,
            health: self.health,
            mental: self.mental_health,
            food: self.food,
        };
        let timestamp_second = self.second_of_day;
        self.action_history.push(PlayerAction {
            turn,
            resources_before,
            resources_after,
            timestamp_second,
        });

        proof {
            let fin = *self;
            assert forall|i: int| 0 <= i < fin.status_effects@.len() implies (
            #[trigger] fin.status_effects@[i]).intensity_tenths <= 1000 by {
                if i < old(self).status_effects@.len() {
                } else {
                    assert(fin.status_effects@[i] == spec_added_effects(*card)[i - old(
                        self,
                    ).status_effects@.len()]);
                }
            }
            assert forall|i: int| 0 <= i < fin.card_cooldowns@.len() implies 1 <= (
            #[trigger] fin.card_cooldowns@[i]).1 <= fin.spec_turn_number() by {
                if card.cooldown is Some {
                    if i > 0 {
                        assert(fin.card_cooldowns@[i] == old(self).card_cooldowns@[i - 1]);
                    }
                } else {
                    assert(fin.card_cooldowns@[i] == old(self).card_cooldowns@[i]);
                }
            }
        }

        events
    }
}

/// Processing extra costs only changes the negative-card count, the
/// locked-resource durations and the four resources, and never raises a
/// resource.
pub proof fn lemma_apply_additional_frame(costs: Seq<AdditionalCost>, st: GameState)
    ensures
        spec_apply_additional(costs, st) == (GameState {
            sleep: spec_apply_additional(costs, st).sleep,
            health: spec_apply_additional(costs, st).health,
            mental_health: spec_apply_additional(costs, st).mental_health,
            food: spec_apply_additional(costs, st).food,
            locked_sleep: spec_apply_additional(costs, st).locked_sleep,
            locked_health: spec_apply_additional(costs, st).locked_health,
            locked_mental: spec_apply_additional(costs, st).locked_mental,
            locked_food: spec_apply_additional(costs, st).locked_food,
            negative_card_count: spec_apply_additional(costs, st).negative_card_count,
            ..st
        }),
        spec_apply_additional(costs, st).sleep <= st.sleep,
        spec_apply_additional(costs, st).health <= st.health,
        spec_apply_additional(costs, st).mental_health <= st.mental_health,
        spec_apply_additional(costs, st).food <= st.food,
    decreases costs.len(),
{
    if costs.len() > 0 {
        lemma_apply_additional_frame(costs.drop_last(), st);
    }
}

/// The cards of a hand that the state can currently play, in order.
pub open spec fn spec_filter_cards(st: GameState, cards: Seq<ActivityCard>) -> Seq<ActivityCard>
    decreases cards.len(),
{
    if cards.len() == 0 {
        Seq::empty()
    } else {
        (if spec_can_play(st, cards[0]) {
            seq![cards[0]]
        } else {
            Seq::empty()
        }) + spec_filter_cards(st, cards.drop_first())
    }
}

impl GameState {
    /// Keep only the cards that can currently be played: unplayable cards
    /// are excluded from the drawable pool, not merely disabled.
    pub fn filter_cards(&self, cards: Vec<ActivityCard>) -> (kept: Vec<ActivityCard>)
        requires
            self.wf(),
        ensures
            kept@ == spec_filter_cards(*self, cards@),
    {
        let mut remaining = cards;
        let ghost orig = remaining@;
        let mut kept: Vec<ActivityCard> = Vec::new();
        while remaining.len() > 0
            invariant
                self.wf(),
                spec_filter_cards(*self, orig) == kept@ + spec_filter_cards(*self, remaining@),
            decreases remaining@.len(),
        {
            let ghost before = remaining@;
            let c = remaining.remove(0);
            proof {
                assert(remaining@ =~= before.drop_first());
            }
            let verdict = self.can_play_card(&c);
            if verdict.0 {
                let ghost kept_before = kept@;
                kept.push(c);
                proof {
                    assert(kept_before + (seq![before[0]] + spec_filter_cards(*self, before.drop_first()))
                        =~= kept@ + spec_filter_cards(*self, remaining@));
                }
            } else {
                proof {
                    assert(kept@ + (Seq::<ActivityCard>::empty() + spec_filter_cards(
                        *self,
                        before.drop_first(),
                    )) =~= kept@ + spec_filter_cards(*self, remaining@));
                }
            }
        }
        proof {
            assert(kept@ + spec_filter_cards(*self, remaining@) =~= kept@);
        }
        kept
    }
}

/// Turn counter invariant: the turn number is always the length of the
/// action history plus one, and a resolved card advances both together.
pub proof fn lemma_turn_counter(st: GameState)
    ensures
        st.spec_turn_number() == st.action_history@.len() + 1,
{
}

/// Cooldown gating: a card with cooldown `n` last played on turn
/// `played_turn` is blocked by its cooldown exactly on the turns before
/// `played_turn + n`, and a blocked card is never playable.
pub proof fn lemma_cooldown_gating(st: GameState, card: ActivityCard, n: u32, played_turn: u32)
    requires
        st.wf(),
        card.cooldown == Some(n),
        spec_cooldown_lookup(st.card_cooldowns@, card.id) == Some(played_turn),
    ensures
        spec_on_cooldown(st, card) <==> st.spec_turn_number() < played_turn + n,
        spec_on_cooldown(st, card) ==> !spec_can_play(st, card),
{
}

/// One-time idempotence: once a one-time card's id is recorded as used, it
/// is never playable again.
pub proof fn lemma_one_time_once(st: GameState, card: ActivityCard)
    requires
        card.one_time_use,
        st.used_one_time_cards@.contains(card.id),
    ensures
        !spec_can_play(st, card),
{
}

/// Daily-use idempotence: a daily-reset card already used today is not
/// playable again today, and clearing the daily list (as the day change
/// does) lifts exactly that block.
pub proof fn lemma_daily_once(st: GameState, card: ActivityCard)
    requires
        card.availability == CardAvailability::DailyReset,
    ensures
        st.daily_used_cards@.contains(card.id) ==> !spec_can_play(st, card),
        st.daily_used_cards@.len() == 0 ==> !spec_daily_blocked(st, card),
{
}

} // verus!
