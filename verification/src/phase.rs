//! The turn phase state machine: a deterministic reducer over inbound
//! events, driving the card engine, the ledger and the cutscene
//! suspend/resume bookkeeping.
use vstd::prelude::*;

use crate::cards::{ActivityCard, AdversaryCard, CardType, CrisisLevel, Mood, StatusEffect};
use crate::crisis::spec_end_game;
use crate::engine::{
    spec_added_effects, spec_applied_events, spec_blocks, spec_can_play, spec_scalars_after_apply,
    StatusEffectApplied,
};
use crate::adversary::{
    spec_adversary_added_effects, spec_adversary_applied_events, spec_env_locks, spec_env_objects,
};
use crate::events::{
    spec_ev, CutsceneId, CutsceneTrigger, GamePhase, GameStep, InEvent, OutEvent, PendingCutscene,
};
use crate::state::{GameState, PlayerAction, ResourceSnapshot, SECONDS_PER_DAY};
use crate::step::{
    spec_advance_seconds, spec_clock_events, spec_day_after, spec_drift_events, spec_second_after,
};
use crate::effects::{spec_tick_expired, spec_tick_survivors};
use crate::spec_clamp_add;
use crate::chance::random_percent;

verus! {

/// Passive per-turn decay, in tenths: sleep loses 5 points, health 2.5,
/// mental health 4 and food 6, while one hour passes.
pub const TURN_DECAY_SLEEP: i32 = -50;

pub const TURN_DECAY_HEALTH: i32 = -25;

pub const TURN_DECAY_MENTAL: i32 = -40;

pub const TURN_DECAY_FOOD: i32 = -60;

/// Unscaled seconds of one turn's passage: one hour.
pub const TURN_SECONDS: u32 = 3600;

/// The phase machine's own state: the current phase, the turn counter,
/// per-turn selections and the cutscene bookkeeping.
#[derive(Debug, Clone, Copy, PartialEq, Eq, Structural)]
pub struct GamePhaseState {
    pub current_phase: GamePhase,
    /// The phase that was current when a cutscene started.
    pub previous_phase: Option<GamePhase>,
    pub turn_number: u32,
    pub cards_drawn_count: u32,
    pub selected_card_id: Option<u32>,
    pub pending_cutscene: Option<CutsceneId>,
    /// While true, every handler but the cutscene-end one drops its event.
    pub cutscene_active: bool,
    /// A cutscene queued to start once the current action completes.
    pub pending_post_action_cutscene: Option<PendingCutscene>,
    pub adversary_cards_drawn: u32,
    pub selected_adversary_card_id: Option<u32>,
}

impl Default for GamePhaseState {
    /// A fresh phase machine: card draw of turn one, no cutscene.
    fn default() -> (d: Self)
        ensures
            d == (GamePhaseState {
                current_phase: GamePhase::CardDraw,
                previous_phase: None,
                turn_number: 1,
                cards_drawn_count: 0,
                selected_card_id: None,
                pending_cutscene: None,
                cutscene_active: false,
                pending_post_action_cutscene: None,
                adversary_cards_drawn: 0,
                selected_adversary_card_id: None,
            }),
    {
        GamePhaseState {
            current_phase: GamePhase::CardDraw,
            previous_phase: None,
            turn_number: 1,
            cards_drawn_count: 0,
            selected_card_id: None,
            pending_cutscene: None,
            cutscene_active: false,
            pending_post_action_cutscene: None,
            adversary_cards_drawn: 0,
            selected_adversary_card_id: None,
        }
    }
}

impl GamePhaseState {
    /// A human-readable name for the current phase.
    pub fn get_phase_name(&self) -> (name: &'static str)
        ensures
            self.current_phase == GamePhase::CardDraw ==> name@ == "Card Draw"@,
            self.current_phase == GamePhase::CardSelection ==> name@ == "Card Selection"@,
            self.current_phase == GamePhase::CharacterAction ==> name@ == "Character Action"@,
            self.current_phase == GamePhase::AdversaryCardDraw ==> name@ == "Adversary Card Draw"@,
            self.current_phase == GamePhase::AdversaryCardSelection ==> name@
                == "Adversary Card Selection"@,
            self.current_phase == GamePhase::TurnOver ==> name@ == "Turn Over"@,
    {
        match self.current_phase {
            GamePhase::CardDraw => "Card Draw",
            GamePhase::CardSelection => "Card Selection",
            GamePhase::CharacterAction => "Character Action",
            GamePhase::AdversaryCardDraw => "Adversary Card Draw",
            GamePhase::AdversaryCardSelection => "Adversary Card Selection",
            GamePhase::TurnOver => "Turn Over",
        }
    }

    /// Whether a cutscene currently suspends the phase machine.
    pub fn is_cutscene_active(&self) -> (r: bool)
        ensures
            r == self.cutscene_active,
    {
        self.cutscene_active
    }
}

/// The whole core: game state plus phase machine, driven as a synchronous
/// reducer over inbound events.
#[derive(Debug, Clone, PartialEq)]
pub struct GameCore {
    pub state: GameState,
    pub phase: GamePhaseState,
}

impl GameCore {
    /// Well-formedness of the whole core.
    pub open spec fn wf(self) -> bool {
        self.state.wf()
    }
}

/// The phase state after a completed draw: in the card-draw phase and
/// outside a cutscene, the draw count is recorded and selection begins;
/// any other arrival is dropped.
pub open spec fn spec_card_drawn(p: GamePhaseState, count: u32) -> GamePhaseState {
    if !p.cutscene_active && p.current_phase == GamePhase::CardDraw {
        GamePhaseState {
            cards_drawn_count: count,
            current_phase: GamePhase::CardSelection,
            ..p
        }
    } else {
        p
    }
}

/// Whether a post-action cutscene is queued for a just-played card: never
/// for a card whose cutscene was already shown; always for crisis and
/// combo cards; for others only when the chance roll (out of 100) falls
/// under 60.
pub open spec fn spec_show_cutscene(st: GameState, card: ActivityCard, roll: u32) -> bool {
    &&& !st.shown_cutscenes@.contains(card.id)
    &&& (card.card_type == CardType::Crisis || card.card_type == CardType::ComboCard || roll < 60)
}

/// How a played card changes the game state: exactly the card engine's
/// resolution.
pub open spec fn spec_played_state(pre: GameState, post: GameState, card: ActivityCard) -> bool {
    &&& post == (GameState {
        status_effects: post.status_effects,
        card_cooldowns: post.card_cooldowns,
        used_one_time_cards: post.used_one_time_cards,
        daily_used_cards: post.daily_used_cards,
        crisis_level: post.crisis_level,
        action_history: post.action_history,
        ..spec_scalars_after_apply(pre, card)
    })
    &&& post.status_effects@ == pre.status_effects@ + spec_added_effects(card)
    &&& post.card_cooldowns@ == (if card.cooldown is Some {
        seq![(card.id, (pre.action_history@.len() + 1) as u32)] + pre.card_cooldowns@
    } else {
        pre.card_cooldowns@
    })
    &&& post.used_one_time_cards@ == (if card.one_time_use {
        pre.used_one_time_cards@.push(card.id)
    } else {
        pre.used_one_time_cards@
    })
    &&& post.daily_used_cards@ == (if card.availability
        == crate::cards::CardAvailability::DailyReset {
        pre.daily_used_cards@.push(card.id)
    } else {
        pre.daily_used_cards@
    })
    &&& post.crisis_level == post.spec_crisis_now()
    &&& post.action_history@ == pre.action_history@.push(
        PlayerAction {
            turn: (pre.action_history@.len() + 1) as u32,
            resources_before: (ResourceSnapshot {
                sleep: pre.sleep,
                health: pre.health,
                mental: pre.mental_health,
                food: pre.food,
            }),
            resources_after: (ResourceSnapshot {
                sleep: post.sleep,
                health: post.health,
                mental: post.mental_health,
                food: post.food,
            }),
            timestamp_second: pre.second_of_day,
        },
    )
}

/// How a selected card changes the core. Outside the card-selection phase
/// or during a cutscene the event is dropped; an unplayable card leaves
/// the core unchanged and reports its blocks; a playable card resolves,
/// possibly queues its cutscene, and moves the machine to the character
/// action phase.
pub open spec fn spec_card_selected_rel(
    pre: GameCore,
    post: GameCore,
    card: ActivityCard,
    roll: u32,
    events: Seq<OutEvent>,
) -> bool {
    if pre.phase.cutscene_active || pre.phase.current_phase != GamePhase::CardSelection {
        &&& post == pre
    &&& events == Seq::<OutEvent>::empty()
    } else if !spec_can_play(pre.state, card) {
        &&& post == pre
        &&& events.len() == 1
        &&& events[0] matches OutEvent::CardSelectionError { card_id, blocks } && card_id == card.id
            && blocks@ == spec_blocks(pre.state, card)
    } else {
        let show = spec_show_cutscene(pre.state, card, roll);
        &&& spec_played_state(
            pre.state,
            GameState { shown_cutscenes: pre.state.shown_cutscenes, ..post.state },
            card,
        )
        &&& post.state.shown_cutscenes@ == (if show {
            pre.state.shown_cutscenes@.push(card.id)
        } else {
            pre.state.shown_cutscenes@
        })
        &&& post.phase == (GamePhaseState {
            selected_card_id: Some(card.id),
            current_phase: GamePhase::CharacterAction,
            pending_post_action_cutscene: (if show {
                Some(
                    PendingCutscene {
                        cutscene: CutsceneId::Card(card.id),
                        card_id: Some(card.id),
                        trigger_reason: CutsceneTrigger::CardEffect,
                    },
                )
            } else {
                pre.phase.pending_post_action_cutscene
            }),
            ..pre.phase
        })
        &&& events == seq![OutEvent::CardSelectionSuccess { card_id: card.id }]
            + spec_applied_events(card).map_values(
            |e: StatusEffectApplied| OutEvent::StatusEffectApplied(e),
        ) + seq![OutEvent::PhaseChanged { new_phase: GamePhase::CharacterAction }]
    }
}

/// How a passive step changes the game state: the ledger's own reducer.
pub open spec fn spec_stepped_state(pre: GameState, post: GameState, step: GameStep) -> bool {
    let adv = spec_advance_seconds(step.delta_seconds as int, pre.time_speed_tenths as int);
    &&& post == (GameState {
        second_of_day: post.second_of_day,
        current_day: post.current_day,
        time_of_day: post.time_of_day,
        sleep: post.sleep,
        health: post.health,
        mental_health: post.mental_health,
        food: post.food,
        current_mood: post.current_mood,
        ..pre
    })
    &&& post.second_of_day == spec_second_after(pre, adv)
    &&& post.current_day == spec_day_after(pre, adv)
    &&& post.time_of_day == GameState::spec_time_of_day_of(post.second_of_day as int)
    &&& post.sleep == spec_clamp_add(pre.sleep as int, step.sleep_change as int)
    &&& post.health == spec_clamp_add(pre.health as int, step.health_change as int)
    &&& post.mental_health == spec_clamp_add(pre.mental_health as int, step.mental_change as int)
    &&& post.food == spec_clamp_add(pre.food as int, step.food_change as int)
    &&& post.current_mood == post.spec_mood_now()
}

/// How the daily reset changes the game state.
pub open spec fn spec_daily_reset_state(pre: GameState, post: GameState) -> bool {
    &&& post == (GameState {
        daily_used_cards: post.daily_used_cards,
        consecutive_stable_days: post.consecutive_stable_days,
        ..pre
    })
    &&& post.daily_used_cards@ == Seq::<u32>::empty()
    &&& post.consecutive_stable_days == (if pre.sleep >= 500 && pre.health >= 500
        && pre.mental_health >= 500 && pre.food >= 500 && pre.crisis_level
        == CrisisLevel::NoCrisis {
        (pre.consecutive_stable_days + 1) as u32
    } else {
        0u32
    })
}

/// Whether a step left any of the four resources at a new value.
pub open spec fn spec_resources_changed(pre: GameState, post: GameState) -> bool {
    ||| pre.sleep != post.sleep
    ||| pre.health != post.health
    ||| pre.mental_health != post.mental_health
    ||| pre.food != post.food
}

/// How one full passive step changes the game state, derived values
/// included: the ledger steps; if a resource drifted the crisis level is
/// recomputed; a day change settles the daily bookkeeping; and if a
/// resource drifted the terminal rules are then read. Events follow the
/// same order.
pub open spec fn spec_core_stepped(
    pre: GameState,
    post: GameState,
    step: GameStep,
    events: Seq<OutEvent>,
) -> bool {
    exists|s1: GameState|
        {
            let s2 = if spec_resources_changed(pre, s1) {
                GameState { crisis_level: s1.spec_crisis_now(), ..s1 }
            } else {
                s1
            };
            &&& #[trigger] spec_stepped_state(pre, s1, step)
            &&& (if s1.current_day != pre.current_day {
                spec_daily_reset_state(s2, post)
            } else {
                post == s2
            })
            &&& events == spec_clock_events(pre, s1) + spec_drift_events(pre, s1) + spec_ev(
                spec_resources_changed(pre, s1) && s2.crisis_level != s1.crisis_level,
                OutEvent::CrisisLevelChanged {
                    old_level: s1.crisis_level,
                    new_level: s2.crisis_level,
                },
            ) + (if spec_resources_changed(pre, s1) && spec_end_game(post) is Some {
                seq![OutEvent::EndGame { result: spec_end_game(post).unwrap() }]
            } else {
                Seq::<OutEvent>::empty()
            })
        }
}

/// How one tick of the status-effect tracker changes the game state.
pub open spec fn spec_ticked_state(pre: GameState, post: GameState, expired: Seq<StatusEffect>) -> bool {
    &&& post == (GameState {
        status_effects: post.status_effects,
        locked_sleep: if pre.locked_sleep > 0 {
            (pre.locked_sleep - 1) as u32
        } else {
            0
        },
        locked_health: if pre.locked_health > 0 {
            (pre.locked_health - 1) as u32
        } else {
            0
        },
        locked_mental: if pre.locked_mental > 0 {
            (pre.locked_mental - 1) as u32
        } else {
            0
        },
        locked_food: if pre.locked_food > 0 {
            (pre.locked_food - 1) as u32
        } else {
            0
        },
        ..pre
    })
    &&& post.status_effects@ == spec_tick_survivors(pre.status_effects@)
    &&& expired == spec_tick_expired(pre.status_effects@)
}

/// The cutscene a finished turn calls for, if any: critical health or
/// mental health, a turn-number milestone, a late night, or a depressed
/// or manic mood — first match wins.
pub open spec fn spec_turn_end_cutscene(st: GameState, p: GamePhaseState) -> Option<CutsceneId> {
    if st.health < 100 {
        Some(CutsceneId::CriticalHealth)
    } else if st.mental_health < 100 {
        Some(CutsceneId::MentalBreakdown)
    } else if p.turn_number % 10 == 0 {
        Some(CutsceneId::TurnMilestone)
    } else if st.second_of_day >= 79200 && st.time_of_day == crate::cards::TimeOfDay::Night {
        Some(CutsceneId::LateNightReflection)
    } else if st.current_mood == Mood::Depressed {
        Some(CutsceneId::DepressionCutscene)
    } else if st.current_mood == Mood::Manic {
        Some(CutsceneId::ManicEpisode)
    } else {
        None
    }
}

/// The per-turn decay step: one game hour passes and the four resources
/// drift down.
pub open spec fn spec_turn_decay() -> GameStep {
    GameStep {
        delta_seconds: TURN_SECONDS,
        sleep_change: TURN_DECAY_SLEEP,
        health_change: TURN_DECAY_HEALTH,
        mental_change: TURN_DECAY_MENTAL,
        food_change: TURN_DECAY_FOOD,
    }
}

/// How entering the turn-over phase changes the core: per-turn selections
/// are discarded, the turn counter advances, status effects tick, the
/// passive decay step runs with its derived updates, and either a
/// turn-end cutscene suspends the machine or play returns to the card
/// draw. The events follow the same order.
pub open spec fn spec_turn_over_rel(pre: GameCore, post: GameCore, events: Seq<OutEvent>) -> bool {
    exists|s1: GameState, expired: Seq<StatusEffect>, ev2: Seq<OutEvent>|
        #![trigger spec_ticked_state(pre.state, s1, expired), spec_core_stepped(s1, post.state, spec_turn_decay(), ev2)]
        {
            &&& spec_ticked_state(pre.state, s1, expired)
            &&& spec_core_stepped(s1, post.state, spec_turn_decay(), ev2)
            &&& {
                let p1 = GamePhaseState {
                    selected_card_id: None,
                    cards_drawn_count: 0,
                    adversary_cards_drawn: 0,
                    selected_adversary_card_id: None,
                    turn_number: (pre.phase.turn_number + 1) as u32,
                    ..pre.phase
                };
                match spec_turn_end_cutscene(post.state, p1) {
                    Some(id) => {
                        &&& post.phase == (GamePhaseState {
                            pending_cutscene: Some(id),
                            previous_phase: Some(pre.phase.current_phase),
                            cutscene_active: true,
                            ..p1
                        })
                        &&& events == expired.map_values(
                            |e: StatusEffect| OutEvent::StatusEffectExpired { effect: e },
                        ) + ev2 + seq![
                            OutEvent::CutsceneStart {
                                cutscene: id,
                                card_id: None,
                                reason: CutsceneTrigger::TurnEnd,
                            },
                        ]
                    },
                    None => {
                        &&& post.phase == (GamePhaseState {
                            current_phase: GamePhase::CardDraw,
                            ..p1
                        })
                        &&& events == expired.map_values(
                            |e: StatusEffect| OutEvent::StatusEffectExpired { effect: e },
                        ) + ev2 + seq![
                            OutEvent::PhaseChanged { new_phase: GamePhase::CardDraw },
                        ]
                    },
                }
            }
        }
}

/// The resume target of the cutscene-end handler, chosen by the phase the
/// machine currently holds, not the recorded previous phase: a fixed
/// table, preserved exactly.
pub open spec fn spec_resume_phase(p: GamePhase) -> Option<GamePhase> {
    match p {
        GamePhase::CharacterAction => Some(GamePhase::AdversaryCardDraw),
        GamePhase::AdversaryCardSelection => Some(GamePhase::TurnOver),
        GamePhase::CardSelection => Some(GamePhase::CharacterAction),
        GamePhase::TurnOver => Some(GamePhase::CardDraw),
        _ => None,
    }
}

impl GameCore {
    /// Build a core around an initial state and phase.
    pub fn new(state: GameState, phase: GamePhaseState) -> (core: GameCore)
        ensures
            core.state == state,
            core.phase == phase,
    {
        GameCore { state, phase }
    }

    /// A completed draw: in the card-draw phase and outside a cutscene,
    /// record the count and begin selection; otherwise drop the event.
    pub fn handle_card_drawn(&mut self, count: u32) -> (events: Vec<OutEvent>)
        ensures
            final(self).state == old(self).state,
            final(self).phase == spec_card_drawn(old(self).phase, count),
            events@ == spec_ev(
                !old(self).phase.cutscene_active && old(self).phase.current_phase
                    == GamePhase::CardDraw,
                OutEvent::PhaseChanged { new_phase: GamePhase::CardSelection },
            ),
    {
        let mut events: Vec<OutEvent> = Vec::new();
        if !self.phase.cutscene_active && self.phase.current_phase == GamePhase::CardDraw {
            self.phase.cards_drawn_count = count;
            self.phase.current_phase = GamePhase::CardSelection;
            events.push(OutEvent::PhaseChanged { new_phase: GamePhase::CardSelection });
        }
        proof {
            assert(events@ =~= spec_ev(
                !old(self).phase.cutscene_active && old(self).phase.current_phase
                    == GamePhase::CardDraw,
                OutEvent::PhaseChanged { new_phase: GamePhase::CardSelection },
            ));
        }
        events
    }

    /// The adversary's completed draw: in the adversary-draw phase and
    /// outside a cutscene, record the count and move to adversary
    /// selection; otherwise drop the event.
    pub fn handle_adversary_card_drawn(&mut self, count: u32) -> (events: Vec<OutEvent>)
        ensures
            final(self).state == old(self).state,
            final(self).phase == (if !old(self).phase.cutscene_active && old(
                self,
            ).phase.current_phase == GamePhase::AdversaryCardDraw {
                GamePhaseState {
                    adversary_cards_drawn: count,
                    current_phase: GamePhase::AdversaryCardSelection,
                    ..old(self).phase
                }
            } else {
                old(self).phase
            }),
            events@ == spec_ev(
                !old(self).phase.cutscene_active && old(self).phase.current_phase
                    == GamePhase::AdversaryCardDraw,
                OutEvent::PhaseChanged { new_phase: GamePhase::AdversaryCardSelection },
            ),
    {
        let mut events: Vec<OutEvent> = Vec::new();
        if !self.phase.cutscene_active && self.phase.current_phase == GamePhase::AdversaryCardDraw {
            self.phase.adversary_cards_drawn = count;
            self.phase.current_phase = GamePhase::AdversaryCardSelection;
            events.push(OutEvent::PhaseChanged { new_phase: GamePhase::AdversaryCardSelection });
        }
        proof {
            assert(events@ =~= spec_ev(
                !old(self).phase.cutscene_active && old(self).phase.current_phase
                    == GamePhase::AdversaryCardDraw,
                OutEvent::PhaseChanged { new_phase: GamePhase::AdversaryCardSelection },
            ));
        }
        events
    }
}


/// How the adversary's played card changes the game state: exactly the
/// adversary resolution.
pub open spec fn spec_adversary_played_state(pre: GameState, post: GameState, card: AdversaryCard) -> bool {
    &&& post == (GameState {
        sleep: post.sleep,
        health: post.health,
        mental_health: post.mental_health,
        food: post.food,
        status_effects: post.status_effects,
        available_objects: post.available_objects,
        locked_sleep: post.locked_sleep,
        locked_health: post.locked_health,
        locked_mental: post.locked_mental,
        locked_food: post.locked_food,
        crisis_level: post.crisis_level,
        ..pre
    })
    &&& post.sleep == spec_clamp_add(pre.sleep as int, card.effects.player_sleep_change as int)
    &&& post.health == spec_clamp_add(pre.health as int, card.effects.player_health_change as int)
    &&& post.mental_health == spec_clamp_add(
        pre.mental_health as int,
        card.effects.player_mental_change as int,
    )
    &&& post.food == spec_clamp_add(pre.food as int, card.effects.player_food_change as int)
    &&& post.status_effects@ == pre.status_effects@ + spec_adversary_added_effects(card)
    &&& post.available_objects@ == spec_env_objects(
        card.effects.environmental_changes@,
        pre.available_objects@,
    )
    &&& (post.locked_sleep, post.locked_health, post.locked_mental, post.locked_food)
        == spec_env_locks(
        card.effects.environmental_changes@,
        (pre.locked_sleep, pre.locked_health, pre.locked_mental, pre.locked_food),
    )
    &&& post.crisis_level == post.spec_crisis_now()
}

/// How the adversary's selection changes the core: outside the
/// adversary-selection phase or during a cutscene the event is dropped;
/// otherwise the card is recorded and resolved against the player and the
/// adversary's action completes.
pub open spec fn spec_adversary_selected_rel(
    pre: GameCore,
    post: GameCore,
    card: AdversaryCard,
    events: Seq<OutEvent>,
) -> bool {
    if pre.phase.cutscene_active || pre.phase.current_phase != GamePhase::AdversaryCardSelection {
        &&& post == pre
        &&& events == Seq::<OutEvent>::empty()
    } else {
        &&& spec_adversary_played_state(pre.state, post.state, card)
        &&& post.phase == (GamePhaseState {
            selected_adversary_card_id: Some(card.id),
            ..pre.phase
        })
        &&& events == spec_adversary_applied_events(card).map_values(
            |e: StatusEffectApplied| OutEvent::StatusEffectApplied(e),
        ) + seq![OutEvent::AdversaryActionCompleted { card_id: card.id }]
    }
}

/// How the adversary's completed action changes the core: outside the
/// adversary-selection phase or during a cutscene the event is dropped;
/// otherwise the machine enters turn-over and processes it.
pub open spec fn spec_adversary_completed_rel(
    pre: GameCore,
    post: GameCore,
    card_id: u32,
    events: Seq<OutEvent>,
) -> bool {
    if pre.phase.cutscene_active || pre.phase.current_phase != GamePhase::AdversaryCardSelection {
        &&& post == pre
        &&& events == Seq::<OutEvent>::empty()
    } else {
        let midp = GameCore {
            state: pre.state,
            phase: GamePhaseState { current_phase: GamePhase::TurnOver, ..pre.phase },
        };
        &&& events.len() >= 1
        &&& events[0] == (OutEvent::PhaseChanged { new_phase: GamePhase::TurnOver })
        &&& spec_turn_over_rel(midp, post, events.skip(1))
    }
}

/// How the action-completed event changes the core: outside the
/// character-action phase or during a cutscene it is dropped; otherwise
/// the played card's time cost passes on the clock, and either the queued
/// post-action cutscene starts or the adversary's draw begins.
pub open spec fn spec_action_completed_rel(
    pre: GameCore,
    post: GameCore,
    card: ActivityCard,
    events: Seq<OutEvent>,
) -> bool {
    if pre.phase.cutscene_active || pre.phase.current_phase != GamePhase::CharacterAction {
        &&& post == pre
        &&& events == Seq::<OutEvent>::empty()
    } else {
        let step = GameStep {
            delta_seconds: (card.costs.time_cost_minutes * 60) as u32,
            sleep_change: 0,
            health_change: 0,
            mental_change: 0,
            food_change: 0,
        };
        exists|ev_step: Seq<OutEvent>|
            #![trigger spec_core_stepped(pre.state, post.state, step, ev_step)]
            {
                &&& spec_core_stepped(pre.state, post.state, step, ev_step)
                &&& match pre.phase.pending_post_action_cutscene {
                    Some(pc) => {
                        &&& post.phase == (GamePhaseState {
                            pending_post_action_cutscene: None,
                            pending_cutscene: Some(pc.cutscene),
                            previous_phase: Some(GamePhase::CharacterAction),
                            cutscene_active: true,
                            ..pre.phase
                        })
                        &&& events == ev_step + seq![
                            OutEvent::CutsceneStart {
                                cutscene: pc.cutscene,
                                card_id: pc.card_id,
                                reason: pc.trigger_reason,
                            },
                        ]
                    },
                    None => {
                        &&& post.phase == (GamePhaseState {
                            current_phase: GamePhase::AdversaryCardDraw,
                            ..pre.phase
                        })
                        &&& events == ev_step + seq![
                            OutEvent::PhaseChanged { new_phase: GamePhase::AdversaryCardDraw },
                        ]
                    },
                }
            }
    }
}

/// How the cutscene-end event changes the core: ignored while no cutscene
/// runs; otherwise the suspension lifts and the resume target is chosen
/// from the fixed table keyed by the phase the machine currently holds —
/// entering turn-over also processes it.
pub open spec fn spec_cutscene_ended_rel(pre: GameCore, post: GameCore, events: Seq<OutEvent>) -> bool {
    if !pre.phase.cutscene_active {
        &&& post == pre
        &&& events == Seq::<OutEvent>::empty()
    } else {
        let cleared = GamePhaseState {
            cutscene_active: false,
            pending_cutscene: None,
            previous_phase: None,
            ..pre.phase
        };
        match pre.phase.current_phase {
            GamePhase::CharacterAction => {
                &&& post == (GameCore {
                    state: pre.state,
                    phase: GamePhaseState { current_phase: GamePhase::AdversaryCardDraw, ..cleared },
                })
                &&& events == seq![
                    OutEvent::PhaseChanged { new_phase: GamePhase::AdversaryCardDraw },
                ]
            },
            GamePhase::CardSelection => {
                &&& post == (GameCore {
                    state: pre.state,
                    phase: GamePhaseState { current_phase: GamePhase::CharacterAction, ..cleared },
                })
                &&& events == seq![
                    OutEvent::PhaseChanged { new_phase: GamePhase::CharacterAction },
                ]
            },
            GamePhase::TurnOver => {
                &&& post == (GameCore {
                    state: pre.state,
                    phase: GamePhaseState { current_phase: GamePhase::CardDraw, ..cleared },
                })
                &&& events == seq![OutEvent::PhaseChanged { new_phase: GamePhase::CardDraw }]
            },
            GamePhase::AdversaryCardSelection => {
                let midp = GameCore {
                    state: pre.state,
                    phase: GamePhaseState { current_phase: GamePhase::TurnOver, ..cleared },
                };
                &&& events.len() >= 1
                &&& events[0] == (OutEvent::PhaseChanged { new_phase: GamePhase::TurnOver })
                &&& spec_turn_over_rel(midp, post, events.skip(1))
            },
            _ => {
                &&& post == (GameCore { state: pre.state, phase: cleared })
                &&& events == Seq::<OutEvent>::empty()
            },
        }
    }
}

impl GameCore {
    /// A selected card, with the chance roll for the cutscene gate already
    /// drawn. Dropped outside the card-selection phase or during a
    /// cutscene; an unplayable card only reports why; a playable card
    /// resolves, possibly queues its cutscene, and the machine moves to
    /// the character-action phase.
    pub fn handle_card_selected(&mut self, card: ActivityCard, chance_roll: u32) -> (events: Vec<
        OutEvent,
    >)
        requires
            old(self).wf(),
            chance_roll < 100,
            old(self).state.action_history@.len() + 2 < u32::MAX,
        ensures
            spec_card_selected_rel(*old(self), *final(self), card, chance_roll, events@),
            final(self).wf(),
    {
        let mut events: Vec<OutEvent> = Vec::new();
        if self.phase.cutscene_active || !(self.phase.current_phase == GamePhase::CardSelection) {
            return events;
        }
        let verdict = self.state.can_play_card(&card);
        if !verdict.0 {
            events.push(OutEvent::CardSelectionError { card_id: card.id, blocks: verdict.1 });
            return events;
        }
        self.phase.selected_card_id = Some(card.id);
        events.push(OutEvent::CardSelectionSuccess { card_id: card.id });
        let ghost p1 = events@;
        let mut applied = self.state.apply_card_effects(&card);
        let ghost total = applied@;
        while applied.len() > 0
            invariant
                applied@ =~= total.skip(total.len() - applied@.len()),
                applied@.len() <= total.len(),
                events@ =~= p1 + total.take(total.len() - applied@.len()).map_values(
                    |e: StatusEffectApplied| OutEvent::StatusEffectApplied(e),
                ),
            decreases applied@.len(),
        {
            let ghost before = applied@;
            let ghost done = total.len() - before.len();
            let e = applied.remove(0);
            proof {
                assert(applied@ =~= before.drop_first());
                assert(e == total[done]);
                assert(total.take(done + 1).drop_last() =~= total.take(done));
                assert(applied@ =~= total.skip(total.len() - applied@.len()));
            }
            events.push(OutEvent::StatusEffectApplied(e));
            proof {
                assert(total.take(done + 1).map_values(
                    |ev: StatusEffectApplied| OutEvent::StatusEffectApplied(ev),
                ) =~= total.take(done).map_values(
                    |ev: StatusEffectApplied| OutEvent::StatusEffectApplied(ev),
                ).push(OutEvent::StatusEffectApplied(e)));
            }
        }
        proof {
            assert(total.take(total.len() as int) =~= total);
            assert(events@ =~= p1 + total.map_values(
                |e: StatusEffectApplied| OutEvent::StatusEffectApplied(e),
            ));
        }
        let show = !crate::engine::has_id(&self.state.shown_cutscenes, card.id) && (card.card_type
            == CardType::Crisis || card.card_type == CardType::ComboCard || chance_roll < 60);
        if show {
            self.state.shown_cutscenes.push(card.id);
            self.phase.pending_post_action_cutscene = Some(
                PendingCutscene {
                    cutscene: CutsceneId::Card(card.id),
                    card_id: Some(card.id),
                    trigger_reason: CutsceneTrigger::CardEffect,
                },
            );
        }
        self.phase.current_phase = GamePhase::CharacterAction;
        events.push(OutEvent::PhaseChanged { new_phase: GamePhase::CharacterAction });
        proof {
            crate::engine::lemma_apply_additional_frame(
                card.costs.additional_costs@,
                crate::engine::spec_after_costs_and_effects(old(self).state, card),
            );
            assert(events@ =~= seq![OutEvent::CardSelectionSuccess { card_id: card.id }]
                + spec_applied_events(card).map_values(
                |e: StatusEffectApplied| OutEvent::StatusEffectApplied(e),
            ) + seq![OutEvent::PhaseChanged { new_phase: GamePhase::CharacterAction }]);
        }
        events
    }

    /// One full passive step with its derived updates: the ledger steps;
    /// if a resource drifted the crisis level is recomputed; a day change
    /// settles the daily bookkeeping; and if a resource drifted the
    /// terminal rules are then read.
    pub fn handle_step(&mut self, step: &GameStep) -> (events: Vec<OutEvent>)
        requires
            old(self).wf(),
            old(self).state.current_day < u32::MAX,
            step.delta_seconds * old(self).state.time_speed_tenths <= 10 * SECONDS_PER_DAY,
        ensures
            final(self).phase == old(self).phase,
            spec_core_stepped(old(self).state, final(self).state, *step, events@),
            final(self).wf(),
    {
        let pre_sleep = self.state.sleep;
        let pre_health = self.state.health;
        let pre_mental = self.state.mental_health;
        let pre_food = self.state.food;
        let pre_day = self.state.current_day;
        let mut events = self.state.handle_game_step(step);
        let ghost s1 = self.state;
        let changed = self.state.sleep != pre_sleep || self.state.health != pre_health
            || self.state.mental_health != pre_mental || self.state.food != pre_food;
        if changed {
            let change = self.state.handle_crisis_level_changes();
            if let Some((old_level, new_level)) = change {
                events.push(OutEvent::CrisisLevelChanged { old_level, new_level });
            }
        }
        let ghost s2 = self.state;
        proof {
            assert(s2 == (if spec_resources_changed(old(self).state, s1) {
                GameState { crisis_level: s1.spec_crisis_now(), ..s1 }
            } else {
                s1
            }));
        }
        if self.state.current_day != pre_day {
            self.state.handle_daily_reset();
        }
        if changed {
            let verdict = self.state.check_end_game_conditions();
            if let Some(result) = verdict {
                events.push(OutEvent::EndGame { result });
            }
        }
        proof {
            assert(spec_stepped_state(old(self).state, s1, *step));
            assert(events@ =~= spec_clock_events(old(self).state, s1) + spec_drift_events(
                old(self).state,
                s1,
            ) + spec_ev(
                spec_resources_changed(old(self).state, s1) && s2.crisis_level != s1.crisis_level,
                OutEvent::CrisisLevelChanged {
                    old_level: s1.crisis_level,
                    new_level: s2.crisis_level,
                },
            ) + (if spec_resources_changed(old(self).state, s1) && spec_end_game(self.state)
                is Some {
                seq![OutEvent::EndGame { result: spec_end_game(self.state).unwrap() }]
            } else {
                Seq::<OutEvent>::empty()
            }));
        }
        events
    }

    /// The cutscene a finished turn calls for, if any.
    pub fn check_turn_end_cutscene_triggers(&self) -> (trigger: Option<CutsceneId>)
        ensures
            trigger == spec_turn_end_cutscene(self.state, self.phase),
    {
        if self.state.health < 100 {
            Some(CutsceneId::CriticalHealth)
        } else if self.state.mental_health < 100 {
            Some(CutsceneId::MentalBreakdown)
        } else if self.phase.turn_number % 10 == 0 {
            Some(CutsceneId::TurnMilestone)
        } else if self.state.second_of_day >= 79200 && self.state.time_of_day
            == crate::cards::TimeOfDay::Night {
            Some(CutsceneId::LateNightReflection)
        } else if self.state.current_mood == Mood::Depressed {
            Some(CutsceneId::DepressionCutscene)
        } else if self.state.current_mood == Mood::Manic {
            Some(CutsceneId::ManicEpisode)
        } else {
            None
        }
    }

    /// Process the turn-over phase just entered: discard the per-turn
    /// selections, advance the turn counter, tick the status effects, run
    /// the passive decay step, and either start a turn-end cutscene or
    /// return to the card draw.
    fn enter_turn_over(&mut self) -> (events: Vec<OutEvent>)
        requires
            old(self).wf(),
            old(self).phase.turn_number < u32::MAX,
            old(self).state.current_day < u32::MAX,
            TURN_SECONDS * old(self).state.time_speed_tenths <= 10 * SECONDS_PER_DAY,
        ensures
            spec_turn_over_rel(*old(self), *final(self), events@),
            final(self).wf(),
    {
        self.phase.selected_card_id = None;
        self.phase.cards_drawn_count = 0;
        self.phase.adversary_cards_drawn = 0;
        self.phase.selected_adversary_card_id = None;
        self.phase.turn_number = self.phase.turn_number + 1;

        let mut expired = self.state.tick_status_effects();
        let ghost s1 = self.state;
        let ghost expired_seq = expired@;
        let mut events: Vec<OutEvent> = Vec::new();
        let ghost total = expired@;
        while expired.len() > 0
            invariant
                expired@ =~= total.skip(total.len() - expired@.len()),
                expired@.len() <= total.len(),
                events@ =~= total.take(total.len() - expired@.len()).map_values(
                    |e: StatusEffect| OutEvent::StatusEffectExpired { effect: e },
                ),
            decreases expired@.len(),
        {
            let ghost before = expired@;
            let ghost done = total.len() - before.len();
            let e = expired.remove(0);
            proof {
                assert(expired@ =~= before.drop_first());
                assert(e == total[done]);
                assert(expired@ =~= total.skip(total.len() - expired@.len()));
            }
            events.push(OutEvent::StatusEffectExpired { effect: e });
            proof {
                assert(total.take(done + 1).map_values(
                    |ev: StatusEffect| OutEvent::StatusEffectExpired { effect: ev },
                ) =~= total.take(done).map_values(
                    |ev: StatusEffect| OutEvent::StatusEffectExpired { effect: ev },
                ).push(OutEvent::StatusEffectExpired { effect: e }));
            }
        }
        proof {
            assert(total.take(total.len() as int) =~= total);
            assert(events@ =~= total.map_values(
                |e: StatusEffect| OutEvent::StatusEffectExpired { effect: e },
            ));
        }
        let ghost p1 = events@;

        let decay = GameStep {
            delta_seconds: TURN_SECONDS,
            sleep_change: TURN_DECAY_SLEEP,
            health_change: TURN_DECAY_HEALTH,
            mental_change: TURN_DECAY_MENTAL,
            food_change: TURN_DECAY_FOOD,
        };
        let mut step_events = self.handle_step(&decay);
        let ghost ev2 = step_events@;
        events.append(&mut step_events);
        let ghost p2 = events@;

        let trigger = self.check_turn_end_cutscene_triggers();
        match trigger {
            Some(id) => {
                self.phase.pending_cutscene = Some(id);
                self.phase.previous_phase = Some(self.phase.current_phase);
                self.phase.cutscene_active = true;
                events.push(OutEvent::CutsceneStart {
                    cutscene: id,
                    card_id: None,
                    reason: CutsceneTrigger::TurnEnd,
                });
                proof {
                    assert(events@ =~= expired_seq.map_values(
                        |e: StatusEffect| OutEvent::StatusEffectExpired { effect: e },
                    ) + ev2 + seq![
                        OutEvent::CutsceneStart {
                            cutscene: id,
                            card_id: None,
                            reason: CutsceneTrigger::TurnEnd,
                        },
                    ]);
                }
            },
            None => {
                self.phase.current_phase = GamePhase::CardDraw;
                events.push(OutEvent::PhaseChanged { new_phase: GamePhase::CardDraw });
                proof {
                    assert(events@ =~= expired_seq.map_values(
                        |e: StatusEffect| OutEvent::StatusEffectExpired { effect: e },
                    ) + ev2 + seq![OutEvent::PhaseChanged { new_phase: GamePhase::CardDraw }]);
                }
            },
        }
        proof {
            assert(spec_ticked_state(old(self).state, s1, expired_seq));
            assert(spec_core_stepped(s1, self.state, spec_turn_decay(), ev2));
        }
        events
    }

    /// The adversary's selection: dropped outside the adversary-selection
    /// phase or during a cutscene; otherwise the card is recorded,
    /// resolved against the player, and the adversary's action completes.
    pub fn handle_adversary_card_selected(&mut self, card: AdversaryCard) -> (events: Vec<OutEvent>)
        requires
            old(self).wf(),
        ensures
            spec_adversary_selected_rel(*old(self), *final(self), card, events@),
            final(self).wf(),
    {
        let mut events: Vec<OutEvent> = Vec::new();
        if self.phase.cutscene_active || !(self.phase.current_phase
            == GamePhase::AdversaryCardSelection) {
            return events;
        }
        self.phase.selected_adversary_card_id = Some(card.id);
        let mut applied = self.state.apply_adversary_card_effects(&card);
        let ghost total = applied@;
        while applied.len() > 0
            invariant
                applied@ =~= total.skip(total.len() - applied@.len()),
                applied@.len() <= total.len(),
                events@ =~= total.take(total.len() - applied@.len()).map_values(
                    |e: StatusEffectApplied| OutEvent::StatusEffectApplied(e),
                ),
            decreases applied@.len(),
        {
            let ghost before = applied@;
            let ghost done = total.len() - before.len();
            let e = applied.remove(0);
            proof {
                assert(applied@ =~= before.drop_first());
                assert(e == total[done]);
                assert(applied@ =~= total.skip(total.len() - applied@.len()));
            }
            events.push(OutEvent::StatusEffectApplied(e));
            proof {
                assert(total.take(done + 1).map_values(
                    |ev: StatusEffectApplied| OutEvent::StatusEffectApplied(ev),
                ) =~= total.take(done).map_values(
                    |ev: StatusEffectApplied| OutEvent::StatusEffectApplied(ev),
                ).push(OutEvent::StatusEffectApplied(e)));
            }
        }
        proof {
            assert(total.take(total.len() as int) =~= total);
            assert(events@ =~= total.map_values(
                |e: StatusEffectApplied| OutEvent::StatusEffectApplied(e),
            ));
        }
        events.push(OutEvent::AdversaryActionCompleted { card_id: card.id });
        proof {
            assert(events@ =~= spec_adversary_applied_events(card).map_values(
                |e: StatusEffectApplied| OutEvent::StatusEffectApplied(e),
            ) + seq![OutEvent::AdversaryActionCompleted { card_id: card.id }]);
        }
        events
    }

    /// The adversary's completed action: dropped outside the
    /// adversary-selection phase or during a cutscene; otherwise the
    /// machine enters turn-over and processes it.
    pub fn handle_adversary_action_completed(&mut self, card_id: u32) -> (events: Vec<OutEvent>)
        requires
            old(self).wf(),
            old(self).phase.turn_number < u32::MAX,
            old(self).state.current_day < u32::MAX,
            TURN_SECONDS * old(self).state.time_speed_tenths <= 10 * SECONDS_PER_DAY,
        ensures
            spec_adversary_completed_rel(*old(self), *final(self), card_id, events@),
            final(self).wf(),
    {
        let mut events: Vec<OutEvent> = Vec::new();
        if self.phase.cutscene_active || !(self.phase.current_phase
            == GamePhase::AdversaryCardSelection) {
            return events;
        }
        self.phase.current_phase = GamePhase::TurnOver;
        events.push(OutEvent::PhaseChanged { new_phase: GamePhase::TurnOver });
        let ghost midp = *self;
        let mut tail = self.enter_turn_over();
        let ghost tail_seq = tail@;
        events.append(&mut tail);
        proof {
            assert(events@.skip(1) =~= tail_seq);
        }
        events
    }

    /// The action-completed event: dropped outside the character-action
    /// phase or during a cutscene; otherwise the played card's time cost
    /// passes on the clock, and either the queued post-action cutscene
    /// starts or the adversary's draw begins.
    pub fn handle_action_completed(&mut self, card: ActivityCard) -> (events: Vec<OutEvent>)
        requires
            old(self).wf(),
            !old(self).phase.cutscene_active && old(self).phase.current_phase
                == GamePhase::CharacterAction ==> {
                &&& card.costs.time_cost_minutes * 60 <= u32::MAX
                &&& card.costs.time_cost_minutes * 60 * old(self).state.time_speed_tenths <= 10
                    * SECONDS_PER_DAY
                &&& old(self).state.current_day < u32::MAX
            },
        ensures
            spec_action_completed_rel(*old(self), *final(self), card, events@),
            final(self).wf(),
    {
        let mut events: Vec<OutEvent> = Vec::new();
        if self.phase.cutscene_active || !(self.phase.current_phase == GamePhase::CharacterAction) {
            return events;
        }
        let step = GameStep {
            delta_seconds: card.costs.time_cost_minutes * 60,
            sleep_change: 0,
            health_change: 0,
            mental_change: 0,
            food_change: 0,
        };
        let mut events = self.handle_step(&step);
        let ghost ev_step = events@;
        let pending = self.phase.pending_post_action_cutscene;
        match pending {
            Some(pc) => {
                self.phase.pending_post_action_cutscene = None;
                self.phase.pending_cutscene = Some(pc.cutscene);
                self.phase.previous_phase = Some(GamePhase::CharacterAction);
                self.phase.cutscene_active = true;
                events.push(OutEvent::CutsceneStart {
                    cutscene: pc.cutscene,
                    card_id: pc.card_id,
                    reason: pc.trigger_reason,
                });
            },
            None => {
                self.phase.current_phase = GamePhase::AdversaryCardDraw;
                events.push(OutEvent::PhaseChanged { new_phase: GamePhase::AdversaryCardDraw });
            },
        }
        events
    }

    /// The end of a cutscene: ignored while none runs; otherwise the
    /// suspension lifts and the machine resumes at the fixed target keyed
    /// by the phase it currently holds — entering turn-over also
    /// processes it.
    pub fn handle_cutscene_ended(&mut self) -> (events: Vec<OutEvent>)
        requires
            old(self).wf(),
            old(self).phase.turn_number < u32::MAX,
            old(self).state.current_day < u32::MAX,
            TURN_SECONDS * old(self).state.time_speed_tenths <= 10 * SECONDS_PER_DAY,
        ensures
            spec_cutscene_ended_rel(*old(self), *final(self), events@),
            final(self).wf(),
    {
        let mut events: Vec<OutEvent> = Vec::new();
        if !self.phase.cutscene_active {
            return events;
        }
        self.phase.cutscene_active = false;
        self.phase.pending_cutscene = None;
        self.phase.previous_phase = None;
        match self.phase.current_phase {
            GamePhase::CharacterAction => {
                self.phase.current_phase = GamePhase::AdversaryCardDraw;
                events.push(OutEvent::PhaseChanged { new_phase: GamePhase::AdversaryCardDraw });
            },
            GamePhase::CardSelection => {
                self.phase.current_phase = GamePhase::CharacterAction;
                events.push(OutEvent::PhaseChanged { new_phase: GamePhase::CharacterAction });
            },
            GamePhase::TurnOver => {
                self.phase.current_phase = GamePhase::CardDraw;
                events.push(OutEvent::PhaseChanged { new_phase: GamePhase::CardDraw });
            },
            GamePhase::AdversaryCardSelection => {
                self.phase.current_phase = GamePhase::TurnOver;
                events.push(OutEvent::PhaseChanged { new_phase: GamePhase::TurnOver });
                let mut tail = self.enter_turn_over();
                let ghost tail_seq = tail@;
                events.append(&mut tail);
                proof {
                    assert(events@.skip(1) =~= tail_seq);
                }
            },
            _ => {},
        }
        events
    }
}

/// Phase cycle closure: from the card draw, a full cycle of a completed
/// draw, a valid selection that queues no cutscene, the action, and the
/// adversary's draw, selection and action — with no cutscene started
/// anywhere — returns to the card draw with the turn counter advanced by
/// exactly one.
pub proof fn lemma_phase_cycle_closure(
    c0: GameCore, c1: GameCore, c2: GameCore, c3: GameCore, c4: GameCore, c5: GameCore,
    c6: GameCore,
    count: u32, card: ActivityCard, roll: u32, adversary_count: u32, adversary_card: AdversaryCard,
    e2: Seq<OutEvent>, e3: Seq<OutEvent>, e5: Seq<OutEvent>, e6: Seq<OutEvent>,
)
    requires
        c0.phase.current_phase == GamePhase::CardDraw,
        !c0.phase.cutscene_active,
        c1.phase == spec_card_drawn(c0.phase, count),
        c1.state == c0.state,
        spec_card_selected_rel(c1, c2, card, roll, e2),
        spec_can_play(c1.state, card),
        !spec_show_cutscene(c1.state, card, roll),
        c1.phase.pending_post_action_cutscene is None,
        spec_action_completed_rel(c2, c3, card, e3),
        c4.phase == (if !c3.phase.cutscene_active && c3.phase.current_phase
            == GamePhase::AdversaryCardDraw {
            GamePhaseState {
                adversary_cards_drawn: adversary_count,
                current_phase: GamePhase::AdversaryCardSelection,
                ..c3.phase
            }
        } else {
            c3.phase
        }),
        c4.state == c3.state,
        spec_adversary_selected_rel(c4, c5, adversary_card, e5),
        spec_adversary_completed_rel(c5, c6, adversary_card.id, e6),
        !c6.phase.cutscene_active,
        c0.phase.turn_number < u32::MAX,
    ensures
        c6.phase.current_phase == GamePhase::CardDraw,
        c6.phase.turn_number == c0.phase.turn_number + 1,
{
    assert(c1.phase.current_phase == GamePhase::CardSelection);
    assert(c2.phase.current_phase == GamePhase::CharacterAction);
    assert(c2.phase.turn_number == c0.phase.turn_number);
    assert(c2.phase.pending_post_action_cutscene is None);
    assert(c3.phase.current_phase == GamePhase::AdversaryCardDraw);
    assert(c4.phase.current_phase == GamePhase::AdversaryCardSelection);
    assert(c5.phase.current_phase == GamePhase::AdversaryCardSelection);
    assert(c5.phase.turn_number == c0.phase.turn_number);
    let midp = GameCore {
        state: c5.state,
        phase: GamePhaseState { current_phase: GamePhase::TurnOver, ..c5.phase },
    };
    assert(spec_turn_over_rel(midp, c6, e6.skip(1)));
}

/// Cutscene suspend/resume exactness, first half: a cutscene ending while
/// the machine holds the character-action phase resumes at the
/// adversary's draw, not back at the character action.
pub proof fn lemma_cutscene_resume_character_action(pre: GameCore, post: GameCore, events: Seq<OutEvent>)
    requires
        pre.phase.cutscene_active,
        pre.phase.current_phase == GamePhase::CharacterAction,
        spec_cutscene_ended_rel(pre, post, events),
    ensures
        post.phase.current_phase == GamePhase::AdversaryCardDraw,
        !post.phase.cutscene_active,
        spec_resume_phase(pre.phase.current_phase) == Some(GamePhase::AdversaryCardDraw),
{
}

/// Cutscene suspend/resume exactness, second half: a cutscene ending
/// while the machine holds the adversary-selection phase resumes at
/// turn-over — its first visible effect is the phase change to turn-over.
pub proof fn lemma_cutscene_resume_adversary_selection(pre: GameCore, post: GameCore, events: Seq<OutEvent>)
    requires
        pre.phase.cutscene_active,
        pre.phase.current_phase == GamePhase::AdversaryCardSelection,
        spec_cutscene_ended_rel(pre, post, events),
    ensures
        events.len() >= 1,
        events[0] == (OutEvent::PhaseChanged { new_phase: GamePhase::TurnOver }),
        spec_resume_phase(pre.phase.current_phase) == Some(GamePhase::TurnOver),
{
}


impl GameCore {
    /// The single reducer entry: consume one inbound event, mutate the
    /// core, and return the outbound events in order. The card-selection
    /// case draws its own chance roll for the cutscene gate; every other
    /// case is deterministic and equal to the matching handler.
    pub fn handle(&mut self, event: InEvent) -> (events: Vec<OutEvent>)
        requires
            old(self).wf(),
            old(self).state.current_day < u32::MAX,
            old(self).phase.turn_number < u32::MAX,
            old(self).state.action_history@.len() + 2 < u32::MAX,
            TURN_SECONDS * old(self).state.time_speed_tenths <= 10 * SECONDS_PER_DAY,
            event matches InEvent::Step(s) ==> s.delta_seconds * old(self).state.time_speed_tenths
                <= 10 * SECONDS_PER_DAY,
            event matches InEvent::ActionCompleted(c) ==> {
                &&& c.costs.time_cost_minutes * 60 <= u32::MAX
                &&& c.costs.time_cost_minutes * 60 * old(self).state.time_speed_tenths <= 10
                    * SECONDS_PER_DAY
            },
        ensures
            final(self).wf(),
            match event {
                InEvent::Step(s) => final(self).phase == old(self).phase && spec_core_stepped(
                    old(self).state,
                    final(self).state,
                    s,
                    events@,
                ),
                InEvent::CardDrawn { count } => final(self).state == old(self).state
                    && final(self).phase == spec_card_drawn(old(self).phase, count),
                InEvent::CardSelected(card) => exists|roll: u32|
                    roll < 100 && #[trigger] spec_card_selected_rel(
                        *old(self),
                        *final(self),
                        card,
                        roll,
                        events@,
                    ),
                InEvent::ActionCompleted(card) => spec_action_completed_rel(
                    *old(self),
                    *final(self),
                    card,
                    events@,
                ),
                InEvent::AdversaryCardDrawn { count } => final(self).state == old(self).state
                    && final(self).phase == (if !old(self).phase.cutscene_active
                    && old(self).phase.current_phase == GamePhase::AdversaryCardDraw {
                    GamePhaseState {
                        adversary_cards_drawn: count,
                        current_phase: GamePhase::AdversaryCardSelection,
                        ..old(self).phase
                    }
                } else {
                    old(self).phase
                }),
                InEvent::AdversaryCardSelected(card) => spec_adversary_selected_rel(
                    *old(self),
                    *final(self),
                    card,
                    events@,
                ),
                InEvent::AdversaryActionCompleted { card_id } => spec_adversary_completed_rel(
                    *old(self),
                    *final(self),
                    card_id,
                    events@,
                ),
                InEvent::CutsceneEnded => spec_cutscene_ended_rel(
                    *old(self),
                    *final(self),
                    events@,
                ),
            },
    {
        match event {
            InEvent::Step(s) => self.handle_step(&s),
            InEvent::CardDrawn { count } => self.handle_card_drawn(count),
            InEvent::CardSelected(card) => {
                let roll = random_percent();
                self.handle_card_selected(card, roll)
            },
            InEvent::ActionCompleted(card) => self.handle_action_completed(card),
            InEvent::AdversaryCardDrawn { count } => self.handle_adversary_card_drawn(count),
            InEvent::AdversaryCardSelected(card) => self.handle_adversary_card_selected(card),
            InEvent::AdversaryActionCompleted { card_id } => self.handle_adversary_action_completed(
                card_id,
            ),
            InEvent::CutsceneEnded => self.handle_cutscene_ended(),
        }
    }
}


/// One-time and daily recording: resolving a card under either policy
/// records its id, which is exactly what blocks it afterwards.
pub proof fn lemma_usage_recorded(pre: GameState, post: GameState, card: ActivityCard)
    requires
        spec_played_state(pre, post, card),
    ensures
        card.one_time_use ==> post.used_one_time_cards@.contains(card.id),
        card.availability == crate::cards::CardAvailability::DailyReset
            ==> post.daily_used_cards@.contains(card.id),
{
    if card.one_time_use {
        assert(post.used_one_time_cards@.last() == card.id);
    }
    if card.availability == crate::cards::CardAvailability::DailyReset {
        assert(post.daily_used_cards@.last() == card.id);
    }
}

} // verus!
