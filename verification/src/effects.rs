//! Status-effect lifecycle: the effect multiplier, the per-turn tick that
//! expires effects, and scaled application of effect deltas.
use vstd::prelude::*;

use crate::cards::StatusEffect;
use crate::crisis::spec_depression_spiral;
use crate::state::{ActiveStatusEffect, GameState};
use crate::RESOURCE_MAX_TENTHS;
use crate::spec_clamp_add;

verus! {

/// Upper bound on the multiplier accepted by `apply_scaled`; far above any
/// multiplier a well-formed state can produce, but small enough that the
/// 128-bit products below cannot overflow.
pub const MULTIPLIER_CAP: i128 = 0x40000000_00000000_00000000;

/// The multiplier floor, in hundredths (0.1).
pub const MULTIPLIER_FLOOR: i128 = 10;

/// The signed contribution of one active effect to the multiplier, in
/// hundredths: Motivated adds half its weight, Focused adds 0.3 of it,
/// Depressed subtracts 0.3 of it, Overwhelmed subtracts 0.2 of it, and
/// every other effect kind contributes nothing.
pub open spec fn spec_contribution(e: ActiveStatusEffect) -> int {
    match e.effect {
        StatusEffect::Motivated(_) => 5 * e.intensity_tenths,
        StatusEffect::Depressed(_) => -3 * e.intensity_tenths,
        StatusEffect::Overwhelmed(_) => -2 * e.intensity_tenths,
        StatusEffect::Focused(_) => 3 * e.intensity_tenths,
        _ => 0,
    }
}

/// Sum of the contributions of a sequence of active effects, in hundredths.
pub open spec fn spec_multiplier_sum(s: Seq<ActiveStatusEffect>) -> int
    decreases s.len(),
{
    if s.len() == 0 {
        0
    } else {
        spec_multiplier_sum(s.drop_last()) + spec_contribution(s.last())
    }
}

/// The effect multiplier of a set of active effects, in hundredths: one
/// (100) plus all contributions, floored at 0.1 (10).
pub open spec fn spec_multiplier(s: Seq<ActiveStatusEffect>) -> int {
    if 100 + spec_multiplier_sum(s) < MULTIPLIER_FLOOR {
        MULTIPLIER_FLOOR as int
    } else {
        100 + spec_multiplier_sum(s)
    }
}

/// An effect delta (in tenths) scaled by a multiplier (in hundredths),
/// rounded towards zero.
pub open spec fn spec_scale(delta: int, m: int) -> int {
    if delta >= 0 {
        (delta * m) / 100
    } else {
        -(((-delta) * m) / 100)
    }
}

/// The surviving effects after one tick: every duration drops by one
/// (saturating at zero) and effects reaching zero are removed, in order.
pub open spec fn spec_tick_survivors(s: Seq<ActiveStatusEffect>) -> Seq<ActiveStatusEffect>
    decreases s.len(),
{
    if s.len() == 0 {
        Seq::empty()
    } else {
        let rest = spec_tick_survivors(s.drop_last());
        let e = s.last();
        if e.remaining_duration > 1 {
            rest.push(ActiveStatusEffect { remaining_duration: (e.remaining_duration - 1) as u32, ..e })
        } else {
            rest
        }
    }
}

/// The effects expired by one tick, in order.
pub open spec fn spec_tick_expired(s: Seq<ActiveStatusEffect>) -> Seq<StatusEffect>
    decreases s.len(),
{
    if s.len() == 0 {
        Seq::empty()
    } else {
        let rest = spec_tick_expired(s.drop_last());
        let e = s.last();
        if e.remaining_duration > 1 {
            rest
        } else {
            rest.push(e.effect)
        }
    }
}

/// Duplicate a status effect value; written out so its result is known to
/// equal its argument.
pub fn dup_effect(e: &StatusEffect) -> (r: StatusEffect)
    ensures
        r == *e,
{
    match e {
        StatusEffect::Insomnia(d) => StatusEffect::Insomnia(*d),
        StatusEffect::Sick(d) => StatusEffect::Sick(*d),
        StatusEffect::Motivated(d) => StatusEffect::Motivated(*d),
        StatusEffect::Overwhelmed(d) => StatusEffect::Overwhelmed(*d),
        StatusEffect::Addicted(s, d) => StatusEffect::Addicted(s.clone(), *d),
        StatusEffect::Exhausted(d) => StatusEffect::Exhausted(*d),
        StatusEffect::Anxious(d) => StatusEffect::Anxious(*d),
        StatusEffect::Depressed(d) => StatusEffect::Depressed(*d),
        StatusEffect::Manic(d) => StatusEffect::Manic(*d),
        StatusEffect::Stable(d) => StatusEffect::Stable(*d),
        StatusEffect::Focused(d) => StatusEffect::Focused(*d),
        StatusEffect::Hungry(d) => StatusEffect::Hungry(*d),
    }
}

/// Apply a signed delta scaled by the multiplier to a resource value,
/// clamping the result into `[0, 1000]` tenths.
pub fn apply_scaled(v: u32, delta: i32, m: i128) -> (r: u32)
    requires
        v <= RESOURCE_MAX_TENTHS,
        MULTIPLIER_FLOOR <= m <= MULTIPLIER_CAP,
    ensures
        r == spec_clamp_add(v as int, spec_scale(delta as int, m as int)),
        r <= RESOURCE_MAX_TENTHS,
{
    let mag: i128 = if delta >= 0 {
        delta as i128
    } else {
        -(delta as i128)
    };
    proof {
        assert(0 <= mag * m <= 0x8000_0000 * MULTIPLIER_CAP) by (nonlinear_arith)
            requires
                0 <= mag <= 0x8000_0000,
                MULTIPLIER_FLOOR <= m <= MULTIPLIER_CAP,
        ;
    }
    let q: i128 = (mag * m) / 100;
    if delta >= 0 {
        if v as i128 + q > RESOURCE_MAX_TENTHS as i128 {
            RESOURCE_MAX_TENTHS
        } else {
            (v as i128 + q) as u32
        }
    } else {
        if q >= v as i128 {
            0
        } else {
            (v as i128 - q) as u32
        }
    }
}

impl GameState {
    /// The current effect multiplier in hundredths: one plus every active
    /// effect's contribution, floored at 0.1.
    pub fn calculate_effect_multiplier(&self) -> (m: i128)
        requires
            self.wf(),
        ensures
            m == spec_multiplier(self.status_effects@),
            MULTIPLIER_FLOOR <= m <= MULTIPLIER_CAP,
    {
        let n = self.status_effects.len();
        let mut acc: i128 = 100;
        let mut i: usize = 0;
        while i < n
            invariant
                0 <= i <= n,
                n == self.status_effects@.len(),
                self.wf(),
                acc == 100 + spec_multiplier_sum(self.status_effects@.take(i as int)),
                -(5000int * i) <= acc - 100 <= 5000int * i,
            decreases n - i,
        {
            let e = &self.status_effects[i];
            let weight: i128 = e.intensity_tenths as i128;
            let scaled: i128 = match &e.effect {
                StatusEffect::Motivated(_) => 5 * weight,
                StatusEffect::Depressed(_) => 3 * weight,
                StatusEffect::Overwhelmed(_) => 2 * weight,
                StatusEffect::Focused(_) => 3 * weight,
                _ => 0,
            };
            let contribution: i128 = match &e.effect {
                StatusEffect::Depressed(_) => -scaled,
                StatusEffect::Overwhelmed(_) => -scaled,
                _ => scaled,
            };
            proof {
                assert(self.status_effects@.take(i + 1).drop_last() =~= self.status_effects@.take(
                    i as int,
                ));
                assert(self.status_effects@.take(i + 1).last() == self.status_effects@[i as int]);
            }
            acc = acc + contribution;
            i = i + 1;
        }
        proof {
            assert(self.status_effects@.take(n as int) =~= self.status_effects@);
        }
        if acc < MULTIPLIER_FLOOR {
            MULTIPLIER_FLOOR
        } else {
            acc
        }
    }

    /// One turn-over tick: every active effect's remaining duration drops by
    /// one (saturating at zero), effects reaching zero are removed and
    /// returned in order, and locked-resource durations drop the same way.
    pub fn tick_status_effects(&mut self) -> (expired: Vec<StatusEffect>)
        requires
            old(self).wf(),
        ensures
            *final(self) == (GameState {
                status_effects: final(self).status_effects,
                locked_sleep: if old(self).locked_sleep > 0 { (old(self).locked_sleep - 1) as u32 } else { 0 },
                locked_health: if old(self).locked_health > 0 { (old(self).locked_health - 1) as u32 } else { 0 },
                locked_mental: if old(self).locked_mental > 0 { (old(self).locked_mental - 1) as u32 } else { 0 },
                locked_food: if old(self).locked_food > 0 { (old(self).locked_food - 1) as u32 } else { 0 },
                ..*old(self)
            }),
            final(self).status_effects@ == spec_tick_survivors(old(self).status_effects@),
            expired@ == spec_tick_expired(old(self).status_effects@),
            final(self).wf(),
    {
        let n = self.status_effects.len();
        let mut survivors: Vec<ActiveStatusEffect> = Vec::new();
        let mut expired: Vec<StatusEffect> = Vec::new();
        let mut i: usize = 0;
        while i < n
            invariant
                0 <= i <= n,
                n == self.status_effects@.len(),
                self.wf(),
                survivors@ == spec_tick_survivors(self.status_effects@.take(i as int)),
                expired@ == spec_tick_expired(self.status_effects@.take(i as int)),
                forall|k: int|
                    0 <= k < survivors@.len() ==> (#[trigger] survivors@[k]).intensity_tenths <= 1000,
            decreases n - i,
        {
            proof {
                assert(self.status_effects@.take(i + 1).drop_last() =~= self.status_effects@.take(
                    i as int,
                ));
                assert(self.status_effects@.take(i + 1).last() == self.status_effects@[i as int]);
            }
            let e = &self.status_effects[i];
            if e.remaining_duration > 1 {
                survivors.push(ActiveStatusEffect {
                    effect: dup_effect(&e.effect),
                    remaining_duration: e.remaining_duration - 1,
                    intensity_tenths: e.intensity_tenths,
                    source: e.source.clone(),
                });
            } else {
                expired.push(dup_effect(&e.effect));
            }
            i = i + 1;
        }
        proof {
            assert(self.status_effects@.take(n as int) =~= self.status_effects@);
        }
        self.status_effects = survivors;
        self.locked_sleep = if self.locked_sleep > 0 { self.locked_sleep - 1 } else { 0 };
        self.locked_health = if self.locked_health > 0 { self.locked_health - 1 } else { 0 };
        self.locked_mental = if self.locked_mental > 0 { self.locked_mental - 1 } else { 0 };
        self.locked_food = if self.locked_food > 0 { self.locked_food - 1 } else { 0 };
        expired
    }

    /// Whether some active Depressed effect still has more than five turns
    /// left: the depression-spiral test of the mental-collapse ending.
    pub fn has_depression_spiral(&self) -> (r: bool)
        ensures
            r == spec_depression_spiral(self.status_effects@),
    {
        let n = self.status_effects.len();
        let mut i: usize = 0;
        while i < n
            invariant
                0 <= i <= n,
                n == self.status_effects@.len(),
                forall|k: int|
                    0 <= k < i ==> !((#[trigger] self.status_effects@[k]).effect is Depressed
                        && self.status_effects@[k].remaining_duration > 5),
            decreases n - i,
        {
            let e = &self.status_effects[i];
            let is_depressed = match &e.effect {
                StatusEffect::Depressed(_) => true,
                _ => false,
            };
            if is_depressed && e.remaining_duration > 5 {
                return true;
            }
            i = i + 1;
        }
        false
    }
}

} // verus!
