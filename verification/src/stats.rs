//! A character's attributes, and how far an attribute lies above a difficulty.

use vstd::prelude::*;
use crate::scalar::Scalar;

verus! {

/// The attributes that decide how a character's actions turn out.
///
/// Nothing ties `hp` to `max_hp` or `mp` to `max_mp`: the rules of a game may
/// move either past the other.
#[derive(Clone, Copy, Debug)]
pub struct Stats {
    /// Strength and constitution: hitting, and taking hits.
    pub badassness: i16,
    /// Dexterity and agility: ranged attacks, dodging, precision.
    pub skill: i16,
    /// Intelligence and charisma: psychic attacks, resisting magic, looking
    /// clever.
    pub swag: i16,
    /// Hit points.
    pub hp: i16,
    /// The most hit points the character can have.
    pub max_hp: i16,
    /// Magic points.
    pub mp: i16,
    /// The most magic points the character can have.
    pub max_mp: i16,
    /// Multiplies the time that an action takes; one leaves it as it is.
    pub speed: Scalar,
    /// Multiplies the cooldown of an ability; one leaves it as it is.
    pub cooldown_reduction: Scalar,
}

impl Stats {
    /// The attributes of a character at its first level.
    pub open spec fn spec_new() -> Stats {
        Stats {
            badassness: 2,
            skill: 2,
            swag: 2,
            hp: 6,
            max_hp: 6,
            mp: 6,
            max_mp: 6,
            speed: Scalar::one(),
            cooldown_reduction: Scalar::one(),
        }
    }

    /// Makes the attributes of a character at its first level: 2 in each of
    /// badassness, skill and swag, 6 of 6 hit points and magic points, and both
    /// multipliers at one.
    #[verifier::when_used_as_spec(spec_new)]
    pub fn new() -> (stats: Stats)
        ensures
            stats == Stats::spec_new(),
    {
        Stats {
            badassness: 2,
            skill: 2,
            swag: 2,
            hp: 6,
            max_hp: 6,
            mp: 6,
            max_mp: 6,
            speed: Scalar::one(),
            cooldown_reduction: Scalar::one(),
        }
    }
}

/// The number of points that take the odds from even to three to one.
pub const HALF: i16 = 5;

/// The odds that an action succeeds, as the exponent of its curve.
///
/// The chance of success is `1 / (1 + λ^exponent)`, where `λ` is one third to
/// the power of `1 / HALF`. Every `HALF` points in the exponent triple the
/// odds: they are even at 0, three to one at `HALF`, one to three at `-HALF`.
#[derive(Clone, Copy, Debug)]
pub struct Odds {
    /// How many points the attribute lies above the difficulty.
    pub exponent: i32,
}

/// The odds of an action for an attribute at `value`, where `difficulty` is
/// the value at which the action succeeds half of the time.
pub open spec fn spec_probability(value: i16, difficulty: i16) -> Odds {
    Odds { exponent: (value - difficulty) as i32 }
}

/// Gives the odds that an action succeeds for an attribute at `value`, where
/// `difficulty` is the value at which it succeeds half of the time.
#[verifier::when_used_as_spec(spec_probability)]
pub fn probability(value: i16, difficulty: i16) -> (odds: Odds)
    ensures
        odds == spec_probability(value, difficulty),
        odds.exponent == value - difficulty,
{
    let value: i32 = value as i32;
    let difficulty: i32 = difficulty as i32;
    Odds { exponent: value - difficulty }
}

/// At the difficulty itself the exponent is 0: the odds are even.
pub proof fn lemma_even_at_difficulty(x: i16)
    ensures
        probability(x, x).exponent == 0,
{
}

/// For one difficulty, a higher attribute has a higher exponent.
pub proof fn lemma_exponent_rises_with_value(low: i16, high: i16, difficulty: i16)
    requires
        low < high,
    ensures
        probability(low, difficulty).exponent < probability(high, difficulty).exponent,
{
}

/// For one attribute, a higher difficulty has a lower exponent.
pub proof fn lemma_exponent_falls_with_difficulty(value: i16, easy: i16, hard: i16)
    requires
        easy < hard,
    ensures
        probability(value, hard).exponent < probability(value, easy).exponent,
{
}

/// `HALF` points above any difficulty give the exponent `HALF`, and `HALF`
/// points below it the exponent `-HALF`.
pub proof fn lemma_half_is_the_same_everywhere(difficulty: i16)
    ensures
        difficulty + HALF <= i16::MAX ==> probability(
            (difficulty + HALF) as i16,
            difficulty,
        ).exponent == HALF,
        i16::MIN <= difficulty - HALF ==> probability(
            (difficulty - HALF) as i16,
            difficulty,
        ).exponent == -HALF,
{
}

} // verus!
