//! The core's only sources of randomness: the post-action cutscene gate
//! and the adversary's uniform card choice.
use vstd::prelude::*;

verus! {

/// Relies on rand::random_range over `0..n`: a uniformly drawn integer
/// below `n`. Nothing beyond the range is promised of the outcome.
#[verifier::external_body]
pub fn random_below(n: u32) -> (r: u32)
    requires
        n >= 1,
    ensures
        r < n,
{
    rand::random_range(0..n)
}

/// A chance roll out of 100, for the probability-gated cutscene decision.
pub fn random_percent() -> (r: u32)
    ensures
        r < 100,
{
    random_below(100)
}

/// The adversary's uniform choice among its drawn cards: an index into a
/// non-empty hand, or nothing for an empty one.
pub fn choose_adversary_index(hand_size: usize) -> (choice: Option<usize>)
    ensures
        hand_size == 0 ==> choice is None,
        hand_size > 0 ==> (choice matches Some(i) && i < hand_size),
{
    if hand_size == 0 {
        None
    } else if hand_size <= u32::MAX as usize {
        let i = random_below(hand_size as u32);
        Some(i as usize)
    } else {
        Some(0)
    }
}

} // verus!
