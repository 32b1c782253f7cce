//! Library-wide laws, stated and proved over the same spec functions the
//! operation contracts use.

use vstd::prelude::*;
use crate::staking::spec_tier_for_stake;
use crate::types::DeviceTier;

verus! {

/// The tier derived from a staked amount is a pure, total step function of
/// the amount alone, matching the threshold table exactly: re-evaluating
/// it on the same amount can never give a different tier, and every amount
/// falls in exactly one band.
pub proof fn lemma_tier_step_function(amount: u64)
    ensures
        amount <= 1000 ==> spec_tier_for_stake(amount) == DeviceTier::Bronze,
        1000 < amount <= 5000 ==> spec_tier_for_stake(amount) == DeviceTier::Silver,
        5000 < amount <= 20000 ==> spec_tier_for_stake(amount) == DeviceTier::Gold,
        20000 < amount ==> spec_tier_for_stake(amount) == DeviceTier::Platinum,
{
}

/// Reputation adjustments saturate instead of wrapping: a gain never
/// carries the score above the representable maximum or below where it
/// started, a loss never carries it below zero or above where it started,
/// and within bounds both act as exact addition and subtraction. Since
/// every adjustment an operation makes is one of these steps, no sequence
/// of penalties and rewards can ever wrap a reputation score.
pub proof fn lemma_reputation_saturates(score: u16, delta: u16)
    ensures
        score.saturating_add(delta) <= u16::MAX,
        score.saturating_add(delta) >= score,
        score + delta <= u16::MAX ==> score.saturating_add(delta) == score + delta,
        score + delta > u16::MAX ==> score.saturating_add(delta) == u16::MAX,
        score.saturating_sub(delta) >= 0,
        score.saturating_sub(delta) <= score,
        delta <= score ==> score.saturating_sub(delta) == score - delta,
        delta > score ==> score.saturating_sub(delta) == 0,
{
}

} // verus!
