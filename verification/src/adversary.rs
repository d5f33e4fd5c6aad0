//! Resolution of adversary cards against the player's state.
use vstd::prelude::*;

use crate::cards::{AdversaryCard, EnvironmentalChange, ResourceType, StatusEffectApplication};
use crate::effects::dup_effect;
use crate::engine::{spec_has_string, StatusEffectApplied};
use crate::spec_clamp_add;
use crate::clamp_add;
use crate::state::{ActiveStatusEffect, GameState};

verus! {

/// A sequence of object names with every occurrence of one name removed,
/// order kept.
pub open spec fn spec_without_string(objects: Seq<String>, name: Seq<char>) -> Seq<String>
    decreases objects.len(),
{
    if objects.len() == 0 {
        Seq::empty()
    } else {
        spec_without_string(objects.drop_last(), name) + (if objects.last()@ == name {
            Seq::empty()
        } else {
            seq![objects.last()]
        })
    }
}

/// The available objects after a sequence of environmental changes:
/// removals drop every matching name, additions append a name not yet
/// present, locks leave the objects alone.
pub open spec fn spec_env_objects(changes: Seq<EnvironmentalChange>, objects: Seq<String>) -> Seq<String>
    decreases changes.len(),
{
    if changes.len() == 0 {
        objects
    } else {
        let prev = spec_env_objects(changes.drop_last(), objects);
        match changes.last() {
            EnvironmentalChange::RemoveObject(name) => spec_without_string(prev, name@),
            EnvironmentalChange::AddObject(name) => if spec_has_string(prev, name@) {
                prev
            } else {
                prev.push(name)
            },
            EnvironmentalChange::LockResource(_, _) => prev,
        }
    }
}

/// The locked-turn counters (sleep, health, mental, food) after a sequence
/// of environmental changes: each lock overwrites its resource's counter.
pub open spec fn spec_env_locks(changes: Seq<EnvironmentalChange>, locks: (u32, u32, u32, u32)) -> (u32, u32, u32, u32)
    decreases changes.len(),
{
    if changes.len() == 0 {
        locks
    } else {
        let prev = spec_env_locks(changes.drop_last(), locks);
        match changes.last() {
            EnvironmentalChange::LockResource(kind, turns) => match kind {
                ResourceType::Sleep => (turns, prev.1, prev.2, prev.3),
                ResourceType::Health => (prev.0, turns, prev.2, prev.3),
                ResourceType::Mental => (prev.0, prev.1, turns, prev.3),
                ResourceType::Food => (prev.0, prev.1, prev.2, turns),
            },
            _ => prev,
        }
    }
}

/// The active effects an adversary card adds, in card order: each enters
/// with weight one and the card's title as source.
pub open spec fn spec_adversary_added_effects(card: AdversaryCard) -> Seq<ActiveStatusEffect> {
    card.effects.status_effects@.map_values(
        |a: StatusEffectApplication|
            (ActiveStatusEffect {
                effect: a.effect,
                remaining_duration: a.duration,
                intensity_tenths: 10,
                source: card.title,
            }),
    )
}

/// The applied-effect events an adversary card emits, in card order.
pub open spec fn spec_adversary_applied_events(card: AdversaryCard) -> Seq<StatusEffectApplied> {
    card.effects.status_effects@.map_values(
        |a: StatusEffectApplication|
            (StatusEffectApplied { effect: a.effect, duration: a.duration, source: card.title }),
    )
}

/// A copy of an object list with every occurrence of one name removed.
fn without_object(objects: &Vec<String>, name: &String) -> (kept: Vec<String>)
    ensures
        kept@ == spec_without_string(objects@, name@),
{
    let n = objects.len();
    let mut kept: Vec<String> = Vec::new();
    let mut i: usize = 0;
    while i < n
        invariant
            0 <= i <= n,
            n == objects@.len(),
            kept@ == spec_without_string(objects@.take(i as int), name@),
        decreases n - i,
    {
        proof {
            assert(objects@.take(i + 1).drop_last() =~= objects@.take(i as int));
            assert(objects@.take(i + 1).last() == objects@[i as int]);
        }
        let same: bool = objects[i] == *name;
        if !same {
            kept.push(objects[i].clone());
        }
        i = i + 1;
    }
    proof {
        assert(objects@.take(n as int) =~= objects@);
    }
    kept
}

/// Whether a vector of strings holds one equal to the given one.
fn contains_object(objects: &Vec<String>, name: &String) -> (r: bool)
    ensures
        r == spec_has_string(objects@, name@),
{
    let n = objects.len();
    let mut i: usize = 0;
    while i < n
        invariant
            0 <= i <= n,
            n == objects@.len(),
            forall|k: int| 0 <= k < i ==> (#[trigger] objects@[k])@ != name@,
        decreases n - i,
    {
        let same: bool = objects[i] == *name;
        if same {
            return true;
        }
        i = i + 1;
    }
    false
}

impl GameState {
    /// Resolve an adversary card against the player's state: shift each
    /// resource by the card's signed delta (clamped), add the card's
    /// status effects, apply its environmental changes in order, and
    /// recompute the crisis level. Returns the applied-effect events.
    pub fn apply_adversary_card_effects(&mut self, card: &AdversaryCard) -> (events: Vec<
        StatusEffectApplied,
    >)
        requires
            old(self).wf(),
        ensures
            *final(self) == (GameState {
                sleep: final(self).sleep,
                health: final(self).health,
                mental_health: final(self).mental_health,
                food: final(self).food,
                status_effects: final(self).status_effects,
                available_objects: final(self).available_objects,
                locked_sleep: final(self).locked_sleep,
                locked_health: final(self).locked_health,
                locked_mental: final(self).locked_mental,
                locked_food: final(self).locked_food,
                crisis_level: final(self).crisis_level,
                ..*old(self)
            }),
            final(self).sleep == spec_clamp_add(
                old(self).sleep as int,
                card.effects.player_sleep_change as int,
            ),
            final(self).health == spec_clamp_add(
                old(self).health as int,
                card.effects.player_health_change as int,
            ),
            final(self).mental_health == spec_clamp_add(
                old(self).mental_health as int,
                card.effects.player_mental_change as int,
            ),
            final(self).food == spec_clamp_add(
                old(self).food as int,
                card.effects.player_food_change as int,
            ),
            final(self).status_effects@ == old(self).status_effects@
                + spec_adversary_added_effects(*card),
            final(self).available_objects@ == spec_env_objects(
                card.effects.environmental_changes@,
                old(self).available_objects@,
            ),
            (
                final(self).locked_sleep,
                final(self).locked_health,
                final(self).locked_mental,
                final(self).locked_food,
            ) == spec_env_locks(
                card.effects.environmental_changes@,
                (
                    old(self).locked_sleep,
                    old(self).locked_health,
                    old(self).locked_mental,
                    old(self).locked_food,
                ),
            ),
            final(self).crisis_level == final(self).spec_crisis_now(),
            events@ == spec_adversary_applied_events(*card),
            final(self).wf(),
    {
        // Shift the resources.
        self.sleep = clamp_add(self.sleep, card.effects.player_sleep_change);
        self.health = clamp_add(self.health, card.effects.player_health_change);
        self.mental_health = clamp_add(self.mental_health, card.effects.player_mental_change);
        self.food = clamp_add(self.food, card.effects.player_food_change);

        // Add the card's status effects, collecting the applied events.
        let ghost mid = *self;
        let mut events: Vec<StatusEffectApplied> = Vec::new();
        let n = card.effects.status_effects.len();
        let mut i: usize = 0;
        while i < n
            invariant
                0 <= i <= n,
                n == card.effects.status_effects@.len(),
                *self == (GameState { status_effects: self.status_effects, ..mid }),
                self.status_effects@ =~= mid.status_effects@ + spec_adversary_added_effects(
                    *card,
                ).take(i as int),
                events@ =~= spec_adversary_applied_events(*card).take(i as int),
            decreases n - i,
        {
            let a = &card.effects.status_effects[i];
            self.status_effects.push(ActiveStatusEffect {
                effect: dup_effect(&a.effect),
                remaining_duration: a.duration,
                intensity_tenths: 10,
                source: card.title.clone(),
            });
            events.push(StatusEffectApplied {
                effect: dup_effect(&a.effect),
                duration: a.duration,
                source: card.title.clone(),
            });
            i = i + 1;
        }
        proof {
            assert(self.status_effects@ =~= mid.status_effects@ + spec_adversary_added_effects(
                *card,
            ));
            assert(events@ =~= spec_adversary_applied_events(*card));
        }

        // Apply the environmental changes in order.
        let ghost env_base = *self;
        let changes = &card.effects.environmental_changes;
        let n_env = changes.len();
        let mut j: usize = 0;
        while j < n_env
            invariant
                0 <= j <= n_env,
                n_env == changes@.len(),
                changes == &card.effects.environmental_changes,
                *self == (GameState {
                    available_objects: self.available_objects,
                    locked_sleep: self.locked_sleep,
                    locked_health: self.locked_health,
                    locked_mental: self.locked_mental,
                    locked_food: self.locked_food,
                    ..env_base
                }),
                self.available_objects@ == spec_env_objects(
                    changes@.take(j as int),
                    env_base.available_objects@,
                ),
                (self.locked_sleep, self.locked_health, self.locked_mental, self.locked_food)
                    == spec_env_locks(
                    changes@.take(j as int),
                    (
                        env_base.locked_sleep,
                        env_base.locked_health,
                        env_base.locked_mental,
                        env_base.locked_food,
                    ),
                ),
            decreases n_env - j,
        {
            proof {
                assert(changes@.take(j + 1).drop_last() =~= changes@.take(j as int));
                assert(changes@.take(j + 1).last() == changes@[j as int]);
            }
            match &changes[j] {
                EnvironmentalChange::RemoveObject(name) => {
                    let kept = without_object(&self.available_objects, name);
                    self.available_objects = kept;
                },
                EnvironmentalChange::AddObject(name) => {
                    if !contains_object(&self.available_objects, name) {
                        self.available_objects.push(name.clone());
                    }
                },
                EnvironmentalChange::LockResource(kind, turns) => {
                    match kind {
                        ResourceType::Sleep => { self.locked_sleep = *turns; },
                        ResourceType::Health => { self.locked_health = *turns; },
                        ResourceType::Mental => { self.locked_mental = *turns; },
                        ResourceType::Food => { self.locked_food = *turns; },
                    }
                },
            }
            j = j + 1;
        }
        proof {
            assert(changes@.take(n_env as int) =~= changes@);
        }

        // Recompute the derived crisis level.
        let level = self.calculate_crisis_level();
        self.crisis_level = level;

        proof {
            let fin = *self;
            assert forall|k: int| 0 <= k < fin.status_effects@.len() implies (
            #[trigger] fin.status_effects@[k]).intensity_tenths <= 1000 by {
                if k < old(self).status_effects@.len() {
                } else {
                    assert(fin.status_effects@[k] == spec_adversary_added_effects(*card)[k - old(
                        self,
                    ).status_effects@.len()]);
                }
            }
        }

        events
    }
}

} // verus!
