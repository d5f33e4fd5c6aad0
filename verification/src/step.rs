//! The passive game-step reducer: clock advance with day rollover, resource
//! drift, derived time-of-day and mood, and the daily reset.
use vstd::prelude::*;

use crate::cards::{CrisisLevel, ResourceType};
use crate::events::{spec_ev, GameStep, OutEvent};
use crate::spec_clamp_add;
use crate::clamp_add;
use crate::state::{GameState, SECONDS_PER_DAY};

verus! {

/// Scaled game seconds for a step: the wall delta times the clock speed in
/// tenths, divided by ten.
pub open spec fn spec_advance_seconds(delta_seconds: int, speed_tenths: int) -> int {
    (delta_seconds * speed_tenths) / 10
}

/// The second of day after advancing; wraps at most once.
pub open spec fn spec_second_after(st: GameState, advance: int) -> int {
    if st.second_of_day + advance >= SECONDS_PER_DAY {
        st.second_of_day + advance - SECONDS_PER_DAY
    } else {
        st.second_of_day + advance
    }
}

/// The day counter after advancing; increments exactly on a wrap.
pub open spec fn spec_day_after(st: GameState, advance: int) -> int {
    if st.second_of_day + advance >= SECONDS_PER_DAY {
        st.current_day + 1
    } else {
        st.current_day as int
    }
}

/// The events a game step emits, derived from the state before and after:
/// a day change, a time change, one change per drifted resource (in the
/// fixed resource order) and a mood change — each only when the value
/// actually changed.
pub open spec fn spec_step_events(st: GameState, fin: GameState) -> Seq<OutEvent> {
    spec_ev(
        fin.current_day != st.current_day,
        OutEvent::DayChanged { old_day: st.current_day, new_day: fin.current_day },
    ) + spec_ev(
        st.second_of_day != fin.second_of_day || st.time_of_day != fin.time_of_day,
        OutEvent::TimeChanged {
            old_second: st.second_of_day,
            new_second: fin.second_of_day,
            old_time_of_day: st.time_of_day,
            new_time_of_day: fin.time_of_day,
        },
    ) + spec_ev(
        st.sleep != fin.sleep,
        OutEvent::ResourceChanged {
            resource: ResourceType::Sleep,
            old_tenths: st.sleep,
            new_tenths: fin.sleep,
        },
    ) + spec_ev(
        st.health != fin.health,
        OutEvent::ResourceChanged {
            resource: ResourceType::Health,
            old_tenths: st.health,
            new_tenths: fin.health,
        },
    ) + spec_ev(
        st.mental_health != fin.mental_health,
        OutEvent::ResourceChanged {
            resource: ResourceType::Mental,
            old_tenths: st.mental_health,
            new_tenths: fin.mental_health,
        },
    ) + spec_ev(
        st.food != fin.food,
        OutEvent::ResourceChanged {
            resource: ResourceType::Food,
            old_tenths: st.food,
            new_tenths: fin.food,
        },
    ) + spec_ev(
        st.current_mood != fin.current_mood,
        OutEvent::MoodChanged { old_mood: st.current_mood, new_mood: fin.current_mood },
    )
}

/// The clock-advance events of a step, derived from the state before and
/// after: a day change and a time change, each only when something
/// changed.
pub open spec fn spec_clock_events(st: GameState, fin: GameState) -> Seq<OutEvent> {
    spec_ev(
        fin.current_day != st.current_day,
        OutEvent::DayChanged { old_day: st.current_day, new_day: fin.current_day },
    ) + spec_ev(
        st.second_of_day != fin.second_of_day || st.time_of_day != fin.time_of_day,
        OutEvent::TimeChanged {
            old_second: st.second_of_day,
            new_second: fin.second_of_day,
            old_time_of_day: st.time_of_day,
            new_time_of_day: fin.time_of_day,
        },
    )
}

/// The drift-and-mood events of a step: one change per drifted resource,
/// in the fixed resource order, then a mood change.
pub open spec fn spec_drift_events(st: GameState, fin: GameState) -> Seq<OutEvent> {
    spec_ev(
        st.sleep != fin.sleep,
        OutEvent::ResourceChanged {
            resource: ResourceType::Sleep,
            old_tenths: st.sleep,
            new_tenths: fin.sleep,
        },
    ) + spec_ev(
        st.health != fin.health,
        OutEvent::ResourceChanged {
            resource: ResourceType::Health,
            old_tenths: st.health,
            new_tenths: fin.health,
        },
    ) + spec_ev(
        st.mental_health != fin.mental_health,
        OutEvent::ResourceChanged {
            resource: ResourceType::Mental,
            old_tenths: st.mental_health,
            new_tenths: fin.mental_health,
        },
    ) + spec_ev(
        st.food != fin.food,
        OutEvent::ResourceChanged {
            resource: ResourceType::Food,
            old_tenths: st.food,
            new_tenths: fin.food,
        },
    ) + spec_ev(
        st.current_mood != fin.current_mood,
        OutEvent::MoodChanged { old_mood: st.current_mood, new_mood: fin.current_mood },
    )
}

impl GameState {
    /// Advance the clock by already-scaled game seconds, wrapping the day
    /// at most once, and re-derive the time of day.
    fn advance_clock(&mut self, advance: u32) -> (events: Vec<OutEvent>)
        requires
            old(self).wf(),
            old(self).current_day < u32::MAX,
            advance <= SECONDS_PER_DAY,
        ensures
            *final(self) == (GameState {
                second_of_day: final(self).second_of_day,
                current_day: final(self).current_day,
                time_of_day: final(self).time_of_day,
                ..*old(self)
            }),
            final(self).second_of_day == spec_second_after(*old(self), advance as int),
            final(self).current_day == spec_day_after(*old(self), advance as int),
            final(self).time_of_day == Self::spec_time_of_day_of(final(self).second_of_day as int),
            events@ == spec_clock_events(*old(self), *final(self)),
            final(self).wf(),
    {
        let mut events: Vec<OutEvent> = Vec::new();
        let old_second = self.second_of_day;
        let old_day = self.current_day;
        let old_tod = self.time_of_day;
        let raw: u32 = self.second_of_day + advance;
        if raw >= SECONDS_PER_DAY {
            self.second_of_day = raw - SECONDS_PER_DAY;
            self.current_day = self.current_day + 1;
        } else {
            self.second_of_day = raw;
        }
        if self.current_day != old_day {
            events.push(OutEvent::DayChanged { old_day, new_day: self.current_day });
        }
        proof {
            assert(events@ =~= spec_ev(
                self.current_day != old(self).current_day,
                OutEvent::DayChanged {
                    old_day: old(self).current_day,
                    new_day: self.current_day,
                },
            ));
        }
        let ghost p1 = events@;
        self.time_of_day = Self::calculate_time_of_day(self.second_of_day);
        if self.second_of_day != old_second || self.time_of_day != old_tod {
            events.push(OutEvent::TimeChanged {
                old_second,
                new_second: self.second_of_day,
                old_time_of_day: old_tod,
                new_time_of_day: self.time_of_day,
            });
        }
        proof {
            assert(events@ =~= p1 + spec_ev(
                old(self).second_of_day != self.second_of_day || old(self).time_of_day
                    != self.time_of_day,
                OutEvent::TimeChanged {
                    old_second: old(self).second_of_day,
                    new_second: self.second_of_day,
                    old_time_of_day: old(self).time_of_day,
                    new_time_of_day: self.time_of_day,
                },
            ));
        }
        events
    }

    /// Drift each resource by its step delta, clamped into range, then
    /// re-derive the mood.
    #[verifier::rlimit(100)]
    fn drift_resources(&mut self, step: &GameStep) -> (events: Vec<OutEvent>)
        requires
            old(self).wf(),
        ensures
            *final(self) == (GameState {
                sleep: final(self).sleep,
                health: final(self).health,
                mental_health: final(self).mental_health,
                food: final(self).food,
                current_mood: final(self).current_mood,
                ..*old(self)
            }),
            final(self).sleep == spec_clamp_add(old(self).sleep as int, step.sleep_change as int),
            final(self).health == spec_clamp_add(
                old(self).health as int,
                step.health_change as int,
            ),
            final(self).mental_health == spec_clamp_add(
                old(self).mental_health as int,
                step.mental_change as int,
            ),
            final(self).food == spec_clamp_add(old(self).food as int, step.food_change as int),
            final(self).current_mood == final(self).spec_mood_now(),
            events@ == spec_drift_events(*old(self), *final(self)),
            final(self).wf(),
    {
        let mut events: Vec<OutEvent> = Vec::new();
        let old_sleep = self.sleep;
        let old_health = self.health;
        let old_mental = self.mental_health;
        let old_food = self.food;
        let old_mood = self.current_mood;
        self.sleep = clamp_add(self.sleep, step.sleep_change);
        if self.sleep != old_sleep {
            events.push(OutEvent::ResourceChanged {
                resource: ResourceType::Sleep,
                old_tenths: old_sleep,
                new_tenths: self.sleep,
            });
        }
        proof {
            assert(events@ =~= spec_ev(
                old(self).sleep != self.sleep,
                OutEvent::ResourceChanged {
                    resource: ResourceType::Sleep,
                    old_tenths: old(self).sleep,
                    new_tenths: self.sleep,
                },
            ));
        }
        let ghost p1 = events@;
        self.health = clamp_add(self.health, step.health_change);
        if self.health != old_health {
            events.push(OutEvent::ResourceChanged {
                resource: ResourceType::Health,
                old_tenths: old_health,
                new_tenths: self.health,
            });
        }
        proof {
            assert(events@ =~= p1 + spec_ev(
                old(self).health != self.health,
                OutEvent::ResourceChanged {
                    resource: ResourceType::Health,
                    old_tenths: old(self).health,
                    new_tenths: self.health,
                },
            ));
        }
        let ghost p2 = events@;
        self.mental_health = clamp_add(self.mental_health, step.mental_change);
        if self.mental_health != old_mental {
            events.push(OutEvent::ResourceChanged {
                resource: ResourceType::Mental,
                old_tenths: old_mental,
                new_tenths: self.mental_health,
            });
        }
        proof {
            assert(events@ =~= p2 + spec_ev(
                old(self).mental_health != self.mental_health,
                OutEvent::ResourceChanged {
                    resource: ResourceType::Mental,
                    old_tenths: old(self).mental_health,
                    new_tenths: self.mental_health,
                },
            ));
        }
        let ghost p3 = events@;
        self.food = clamp_add(self.food, step.food_change);
        if self.food != old_food {
            events.push(OutEvent::ResourceChanged {
                resource: ResourceType::Food,
                old_tenths: old_food,
                new_tenths: self.food,
            });
        }
        proof {
            assert(events@ =~= p3 + spec_ev(
                old(self).food != self.food,
                OutEvent::ResourceChanged {
                    resource: ResourceType::Food,
                    old_tenths: old(self).food,
                    new_tenths: self.food,
                },
            ));
        }
        let ghost p4 = events@;
        let new_mood = self.calculate_mood();
        self.current_mood = new_mood;
        if self.current_mood != old_mood {
            events.push(OutEvent::MoodChanged { old_mood, new_mood: self.current_mood });
        }
        proof {
            assert(events@ =~= p4 + spec_ev(
                old(self).current_mood != self.current_mood,
                OutEvent::MoodChanged {
                    old_mood: old(self).current_mood,
                    new_mood: self.current_mood,
                },
            ));
        }
        events
    }

    /// Apply a passive game step: advance the clock (wrapping the day at
    /// most once), re-derive the time of day, drift each resource with
    /// clamping, and re-derive the mood. Returns the change events in
    /// order.
    pub fn handle_game_step(&mut self, step: &GameStep) -> (events: Vec<OutEvent>)
        requires
            old(self).wf(),
            old(self).current_day < u32::MAX,
            step.delta_seconds * old(self).time_speed_tenths <= 10 * SECONDS_PER_DAY,
        ensures
            *final(self) == (GameState {
                second_of_day: final(self).second_of_day,
                current_day: final(self).current_day,
                time_of_day: final(self).time_of_day,
                sleep: final(self).sleep,
                health: final(self).health,
                mental_health: final(self).mental_health,
                food: final(self).food,
                current_mood: final(self).current_mood,
                ..*old(self)
            }),
            final(self).second_of_day == spec_second_after(
                *old(self),
                spec_advance_seconds(
                    step.delta_seconds as int,
                    old(self).time_speed_tenths as int,
                ),
            ),
            final(self).current_day == spec_day_after(
                *old(self),
                spec_advance_seconds(
                    step.delta_seconds as int,
                    old(self).time_speed_tenths as int,
                ),
            ),
            final(self).time_of_day == Self::spec_time_of_day_of(final(self).second_of_day as int),
            final(self).sleep == spec_clamp_add(old(self).sleep as int, step.sleep_change as int),
            final(self).health == spec_clamp_add(
                old(self).health as int,
                step.health_change as int,
            ),
            final(self).mental_health == spec_clamp_add(
                old(self).mental_health as int,
                step.mental_change as int,
            ),
            final(self).food == spec_clamp_add(old(self).food as int, step.food_change as int),
            final(self).current_mood == final(self).spec_mood_now(),
            events@ == spec_clock_events(*old(self), *final(self)) + spec_drift_events(
                *old(self),
                *final(self),
            ),
            final(self).wf(),
    {
        let product: u64 = step.delta_seconds as u64 * self.time_speed_tenths as u64;
        let advance: u32 = (product / 10) as u32;
        let mut events = self.advance_clock(advance);
        let mut drift = self.drift_resources(step);
        events.append(&mut drift);
        events
    }

    /// Reset the per-day bookkeeping on a day change: clear the daily-used
    /// cards and extend or reset the run of stable days, a day counting as
    /// stable when every resource is at least 50 points and there is no
    /// crisis.
    pub fn handle_daily_reset(&mut self)
        requires
            old(self).wf(),
            old(self).consecutive_stable_days + 1 < old(self).current_day,
        ensures
            *final(self) == (GameState {
                daily_used_cards: final(self).daily_used_cards,
                consecutive_stable_days: final(self).consecutive_stable_days,
                ..*old(self)
            }),
            final(self).daily_used_cards@ == Seq::<u32>::empty(),
            final(self).consecutive_stable_days == (
            if old(self).sleep >= 500 && old(self).health >= 500 && old(self).mental_health >= 500
                && old(self).food >= 500 && old(self).crisis_level == CrisisLevel::NoCrisis {
                (old(self).consecutive_stable_days + 1) as u32
            } else {
                0u32
            }),
            final(self).wf(),
    {
        self.daily_used_cards = Vec::new();
        let stable = self.sleep >= 500 && self.health >= 500 && self.mental_health >= 500
            && self.food >= 500 && self.crisis_level == CrisisLevel::NoCrisis;
        if stable {
            self.consecutive_stable_days = self.consecutive_stable_days + 1;
        } else {
            self.consecutive_stable_days = 0;
        }
    }
}

} // verus!
