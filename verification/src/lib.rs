//! Core logic of a turn-based life-simulation card game: a resource ledger
//! with a day clock, a status-effect tracker, a card eligibility and effect
//! engine, a crisis and end-game evaluator, and the turn phase state machine
//! that ties them together.
//!
//! Resource values and deltas are fixed-point numbers in tenths of a point,
//! so a resource level of `70.0` points is stored as `700`.
use vstd::prelude::*;

pub mod adversary;
pub mod cards;
pub mod chance;
pub mod crisis;
pub mod effects;
pub mod engine;
pub mod events;
pub mod phase;
pub mod state;
pub mod step;
pub mod text;

verus! {

/// Upper bound of every resource, in tenths of a point (100.0 points).
pub const RESOURCE_MAX_TENTHS: u32 = 1000;

/// Clamp an arbitrary integer into the resource range `[0, RESOURCE_MAX_TENTHS]`.
pub open spec fn spec_clamp(v: int) -> int {
    if v < 0 {
        0
    } else if v > RESOURCE_MAX_TENTHS {
        RESOURCE_MAX_TENTHS as int
    } else {
        v
    }
}

/// Add a signed delta to a resource value and clamp the result into range.
pub open spec fn spec_clamp_add(v: int, delta: int) -> int {
    spec_clamp(v + delta)
}

/// Apply a delta to a single resource value, clamping into `[0, 1000]` tenths.
pub fn clamp_add(v: u32, delta: i32) -> (r: u32)
    requires
        v <= RESOURCE_MAX_TENTHS,
    ensures
        r == spec_clamp_add(v as int, delta as int),
        r <= RESOURCE_MAX_TENTHS,
{
    let wide: i64 = v as i64 + delta as i64;
    if wide < 0 {
        0
    } else if wide > RESOURCE_MAX_TENTHS as i64 {
        RESOURCE_MAX_TENTHS
    } else {
        wide as u32
    }
}

} // verus!
