//! Points, penalties and accuracy.

use vstd::prelude::*;

verus! {

/// The points a hit is worth, where `combo` already counts that hit: ten,
/// and ten more for every full ten hits in a row.
pub open spec fn points(combo: nat) -> nat {
    10 * (1 + combo / 10)
}

/// The score after the penalty for a wrong key: two points less, but never below zero.
pub open spec fn penalized(score: nat) -> nat {
    if score >= 2 {
        (score - 2) as nat
    } else {
        0
    }
}

/// The share of attempts that hit, in percent and rounded down; a hundred
/// while nothing has been attempted.
pub open spec fn accuracy(correct: nat, total: nat) -> nat {
    if total > 0 {
        100 * correct / total
    } else {
        100
    }
}

/// The points of a hit never exceed ten plus the length of the combo.
pub proof fn lemma_points_bounded(combo: nat)
    ensures
        10 <= points(combo) <= 10 + combo,
{
}

/// The points for a hit that brings the combo to `combo`.
pub fn points_for_combo(combo: u32) -> (p: u64)
    ensures
        p == points(combo as nat),
{
    10 * (1 + (combo as u64) / 10)
}

/// The score after the penalty for a wrong key.
pub fn penalize(score: u64) -> (s: u64)
    ensures
        s == penalized(score as nat),
{
    if score >= 2 {
        score - 2
    } else {
        0
    }
}

/// The accuracy in percent for `correct` hits in `total` attempts.
pub fn accuracy_percent(correct: u32, total: u32) -> (a: u64)
    ensures
        a == accuracy(correct as nat, total as nat),
{
    if total > 0 {
        100 * (correct as u64) / (total as u64)
    } else {
        100
    }
}

} // verus!
