//! Crisis level derivation and terminal win/lose evaluation.
use vstd::prelude::*;

use crate::cards::{CrisisLevel, StatusEffect};
use crate::state::{ActiveStatusEffect, GameState};

verus! {

/// Why the game was won.
#[derive(Debug, Clone, Copy, PartialEq, Eq, Structural)]
pub enum SuccessReason {
    Stability,
    Recovery,
    Resilience,
    Growth,
}

/// Why the game was lost.
#[derive(Debug, Clone, Copy, PartialEq, Eq, Structural)]
pub enum FailureReason {
    CompleteBreakdown,
    HealthCrisis,
    MentalCollapse,
    TimeLimit,
    CascadeFailure,
}

/// A terminal outcome of the game.
#[derive(Debug, Clone, Copy, PartialEq, Eq, Structural)]
pub enum EndGameResult {
    Success(SuccessReason),
    Failure(FailureReason),
}

/// How many of the four resource values (in tenths) lie strictly below a
/// threshold.
pub open spec fn spec_below_count(sleep: int, health: int, mental: int, food: int, threshold: int) -> int {
    (if sleep < threshold { 1int } else { 0int })
        + (if health < threshold { 1int } else { 0int })
        + (if mental < threshold { 1int } else { 0int })
        + (if food < threshold { 1int } else { 0int })
}

/// The crisis level derived from four resource values (in tenths); the
/// first matching rule wins. Thresholds are 10, 15 and 30 points.
pub open spec fn spec_crisis_of(sleep: int, health: int, mental: int, food: int) -> CrisisLevel {
    let n10 = spec_below_count(sleep, health, mental, food, 100);
    let n15 = spec_below_count(sleep, health, mental, food, 150);
    let n30 = spec_below_count(sleep, health, mental, food, 300);
    if n10 >= 2 {
        CrisisLevel::Critical
    } else if n10 == 1 {
        CrisisLevel::Severe
    } else if n15 == 1 {
        CrisisLevel::Moderate
    } else if n15 == 0 && n30 >= 1 {
        CrisisLevel::Mild
    } else {
        CrisisLevel::NoCrisis
    }
}

/// The position of a crisis level in the severity order.
pub open spec fn spec_crisis_rank(level: CrisisLevel) -> int {
    match level {
        CrisisLevel::NoCrisis => 0,
        CrisisLevel::Mild => 1,
        CrisisLevel::Moderate => 2,
        CrisisLevel::Severe => 3,
        CrisisLevel::Critical => 4,
    }
}

/// How many active effects are of a negative kind (Depressed, Anxious or
/// Overwhelmed).
pub open spec fn spec_negative_status_count(s: Seq<ActiveStatusEffect>) -> int
    decreases s.len(),
{
    if s.len() == 0 {
        0
    } else {
        spec_negative_status_count(s.drop_last()) + (if s.last().effect is Depressed
            || s.last().effect is Anxious || s.last().effect is Overwhelmed {
            1int
        } else {
            0int
        })
    }
}

/// Some active Depressed effect still has more than five turns left.
pub open spec fn spec_depression_spiral(s: Seq<ActiveStatusEffect>) -> bool {
    exists|i: int|
        0 <= i < s.len() && (#[trigger] s[i]).effect is Depressed && s[i].remaining_duration > 5
}

/// The terminal outcome a state calls for, if any: failure rules first,
/// then success rules, first match winning.
pub open spec fn spec_end_game(st: GameState) -> Option<EndGameResult> {
    if st.sleep < 50 && st.health < 50 && st.mental_health < 50 && st.food < 50 {
        Some(EndGameResult::Failure(FailureReason::CompleteBreakdown))
    } else if st.health == 0 {
        Some(EndGameResult::Failure(FailureReason::HealthCrisis))
    } else if st.mental_health == 0 && spec_depression_spiral(st.status_effects@) {
        Some(EndGameResult::Failure(FailureReason::MentalCollapse))
    } else if st.current_day >= 30 && st.crisis_level == CrisisLevel::Critical {
        Some(EndGameResult::Failure(FailureReason::TimeLimit))
    } else if spec_negative_status_count(st.status_effects@) >= 3 {
        Some(EndGameResult::Failure(FailureReason::CascadeFailure))
    } else if st.consecutive_stable_days >= 7 {
        Some(EndGameResult::Success(SuccessReason::Stability))
    } else if st.sleep >= 800 && st.health >= 800 && st.mental_health >= 800 && st.food >= 800 {
        Some(EndGameResult::Success(SuccessReason::Recovery))
    } else if st.current_day >= 30 && st.crisis_level == CrisisLevel::NoCrisis {
        Some(EndGameResult::Success(SuccessReason::Resilience))
    } else {
        None
    }
}

impl GameState {
    /// The crisis level derived from this state's resources.
    pub open spec fn spec_crisis_now(self) -> CrisisLevel {
        spec_crisis_of(self.sleep as int, self.health as int, self.mental_health as int, self.food as int)
    }

    /// Derive the crisis level from the current resources: how many sit
    /// below 10, 15 and 30 points decides the tier.
    pub fn calculate_crisis_level(&self) -> (level: CrisisLevel)
        ensures
            level == self.spec_crisis_now(),
    {
        let mut n10: u32 = 0;
        let mut n15: u32 = 0;
        let mut n30: u32 = 0;
        if self.sleep < 100 { n10 = n10 + 1; }
        if self.health < 100 { n10 = n10 + 1; }
        if self.mental_health < 100 { n10 = n10 + 1; }
        if self.food < 100 { n10 = n10 + 1; }
        if self.sleep < 150 { n15 = n15 + 1; }
        if self.health < 150 { n15 = n15 + 1; }
        if self.mental_health < 150 { n15 = n15 + 1; }
        if self.food < 150 { n15 = n15 + 1; }
        if self.sleep < 300 { n30 = n30 + 1; }
        if self.health < 300 { n30 = n30 + 1; }
        if self.mental_health < 300 { n30 = n30 + 1; }
        if self.food < 300 { n30 = n30 + 1; }
        if n10 >= 2 {
            CrisisLevel::Critical
        } else if n10 == 1 {
            CrisisLevel::Severe
        } else if n15 == 1 {
            CrisisLevel::Moderate
        } else if n15 == 0 && n30 >= 1 {
            CrisisLevel::Mild
        } else {
            CrisisLevel::NoCrisis
        }
    }

    /// Recompute and store the crisis level; reports the old and new level
    /// when they differ.
    pub fn handle_crisis_level_changes(&mut self) -> (change: Option<(CrisisLevel, CrisisLevel)>)
        ensures
            *final(self) == (GameState { crisis_level: old(self).spec_crisis_now(), ..*old(self) }),
            change matches Some((o, n)) ==> o == old(self).crisis_level && n == final(self).crisis_level
                && o != n,
            change is None ==> old(self).crisis_level == final(self).crisis_level,
    {
        let old_level = self.crisis_level;
        let new_level = self.calculate_crisis_level();
        self.crisis_level = new_level;
        if old_level != new_level {
            Some((old_level, new_level))
        } else {
            None
        }
    }

    /// Evaluate the terminal win/lose rules against the current state;
    /// failure conditions are checked before success conditions and the
    /// first match wins.
    pub fn check_end_game_conditions(&self) -> (r: Option<EndGameResult>)
        ensures
            r == spec_end_game(*self),
    {
        if self.sleep < 50 && self.health < 50 && self.mental_health < 50 && self.food < 50 {
            return Some(EndGameResult::Failure(FailureReason::CompleteBreakdown));
        }
        if self.health == 0 {
            return Some(EndGameResult::Failure(FailureReason::HealthCrisis));
        }
        if self.mental_health == 0 && self.has_depression_spiral() {
            return Some(EndGameResult::Failure(FailureReason::MentalCollapse));
        }
        if self.current_day >= 30 && self.crisis_level == CrisisLevel::Critical {
            return Some(EndGameResult::Failure(FailureReason::TimeLimit));
        }
        if self.count_negative_statuses() >= 3 {
            return Some(EndGameResult::Failure(FailureReason::CascadeFailure));
        }
        if self.consecutive_stable_days >= 7 {
            return Some(EndGameResult::Success(SuccessReason::Stability));
        }
        if self.sleep >= 800 && self.health >= 800 && self.mental_health >= 800 && self.food >= 800 {
            return Some(EndGameResult::Success(SuccessReason::Recovery));
        }
        if self.current_day >= 30 && self.crisis_level == CrisisLevel::NoCrisis {
            return Some(EndGameResult::Success(SuccessReason::Resilience));
        }
        None
    }

    /// Count the active effects of a negative kind.
    fn count_negative_statuses(&self) -> (count: u64)
        ensures
            count == spec_negative_status_count(self.status_effects@),
    {
        let n = self.status_effects.len();
        let mut count: u64 = 0;
        let mut i: usize = 0;
        while i < n
            invariant
                0 <= i <= n,
                n == self.status_effects@.len(),
                count == spec_negative_status_count(self.status_effects@.take(i as int)),
                count <= i,
            decreases n - i,
        {
            proof {
                assert(self.status_effects@.take(i + 1).drop_last() =~= self.status_effects@.take(
                    i as int,
                ));
                assert(self.status_effects@.take(i + 1).last() == self.status_effects@[i as int]);
            }
            let negative = match &self.status_effects[i].effect {
                StatusEffect::Depressed(_) => true,
                StatusEffect::Anxious(_) => true,
                StatusEffect::Overwhelmed(_) => true,
                _ => false,
            };
            if negative {
                count = count + 1;
            }
            i = i + 1;
        }
        proof {
            assert(self.status_effects@.take(n as int) =~= self.status_effects@);
        }
        count
    }
}

/// Crisis monotonicity: lowering one resource while the other three stay
/// fixed can only raise or hold the crisis level, never lower it — except
/// on the one input family the rules themselves rank down, where a
/// Moderate state (exactly one resource under 15 points) gains a second
/// resource under 15 while none falls under 10, which the rules grade as
/// no crisis.
pub proof fn lemma_crisis_monotone(
    sleep1: int, health1: int, mental1: int, food1: int,
    sleep2: int, health2: int, mental2: int, food2: int,
)
    requires
        sleep2 <= sleep1,
        health2 <= health1,
        mental2 <= mental1,
        food2 <= food1,
        (if sleep2 == sleep1 { 0int } else { 1int }) + (if health2 == health1 { 0int } else { 1int })
            + (if mental2 == mental1 { 0int } else { 1int }) + (if food2 == food1 { 0int } else { 1int })
            <= 1,
        !(spec_below_count(sleep1, health1, mental1, food1, 150) == 1 && spec_below_count(
            sleep2,
            health2,
            mental2,
            food2,
            100,
        ) == 0 && spec_below_count(sleep2, health2, mental2, food2, 150) >= 2),
    ensures
        spec_crisis_rank(spec_crisis_of(sleep2, health2, mental2, food2)) >= spec_crisis_rank(
            spec_crisis_of(sleep1, health1, mental1, food1),
        ),
{
}

/// Crisis floor: whenever all four resources are at or above 30 points, the
/// crisis level is NoCrisis.
pub proof fn lemma_crisis_none_when_high(sleep: int, health: int, mental: int, food: int)
    requires
        sleep >= 300,
        health >= 300,
        mental >= 300,
        food >= 300,
    ensures
        spec_crisis_of(sleep, health, mental, food) == CrisisLevel::NoCrisis,
{
}

} // verus!
