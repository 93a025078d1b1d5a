//! How long an action takes and how long it keeps its ability busy.
//!
//! A [`Time`] holds coefficients. Against a character's [`Stats`] they give a
//! [`Formula`]: a multiplier, a fixed part, and one [`Term`] for each of
//! badassness, skill and swag, which the attribute of that name wears down.
//! The formula stands for
//!
//! ```text
//! multiplier × (fixed + Σ coefficient × 0.95^points)
//! ```
//!
//! and is handed out as written: the library picks the operands and leaves the
//! arithmetic to whoever evaluates it.

use vstd::prelude::*;
use crate::scalar::Scalar;
use crate::stats::Stats;

verus! {

/// The coefficients of a duration: of the time an action takes, or of the
/// cooldown of an ability.
#[derive(Clone, Copy, Debug)]
pub struct Time {
    /// The part that no attribute wears down: the time a gun takes to eject a
    /// case.
    pub fixed: Scalar,
    /// A part kept beside the others; neither formula reads it.
    pub variable: Scalar,
    /// The part that badassness wears down: the time to be ready to punch
    /// again.
    pub badassness: Scalar,
    /// The part that skill wears down: the time to aim again.
    pub skill: Scalar,
    /// The part that swag wears down: the time to be able to cast again.
    pub swag: Scalar,
}

/// A share of a duration that an attribute wears down: each point of the
/// attribute multiplies `coefficient` by 0.95 once more.
#[derive(Clone, Copy, Debug)]
pub struct Term {
    /// What the share amounts to at zero points.
    pub coefficient: Scalar,
    /// The points of the attribute that wears the share down.
    pub points: i16,
}

/// A duration written out for one character, operands only.
#[derive(Clone, Copy, Debug)]
pub struct Formula {
    /// What the whole sum is multiplied by.
    pub multiplier: Scalar,
    /// The part of the sum that no attribute wears down.
    pub fixed: Scalar,
    /// The share that badassness wears down.
    pub badassness: Term,
    /// The share that skill wears down.
    pub skill: Term,
    /// The share that swag wears down.
    pub swag: Term,
}

impl Formula {
    /// Whether the coefficient of each of the three terms is zero.
    pub open spec fn terms_are_zero(self) -> bool {
        &&& self.badassness.coefficient == Scalar::zero()
        &&& self.skill.coefficient == Scalar::zero()
        &&& self.swag.coefficient == Scalar::zero()
    }
}

impl Time {
    /// The duration with every coefficient at zero.
    pub open spec fn spec_new() -> Time {
        Time {
            fixed: Scalar::zero(),
            variable: Scalar::zero(),
            badassness: Scalar::zero(),
            skill: Scalar::zero(),
            swag: Scalar::zero(),
        }
    }

    /// Makes the duration with every coefficient at zero: no time at all.
    #[verifier::when_used_as_spec(spec_new)]
    pub fn new() -> (time: Time)
        ensures
            time == Time::spec_new(),
    {
        Time {
            fixed: Scalar::zero(),
            variable: Scalar::zero(),
            badassness: Scalar::zero(),
            skill: Scalar::zero(),
            swag: Scalar::zero(),
        }
    }

    /// Sets the part that no attribute wears down, and leaves the other coefficients as they are.
    pub fn with_fixed(self, fixed: Scalar) -> (time: Time)
        ensures
            time == (Time { fixed, ..self }),
    {
        Time { fixed, ..self }
    }

    /// Sets the part that neither formula reads, and leaves the other coefficients as they are.
    pub fn with_variable(self, variable: Scalar) -> (time: Time)
        ensures
            time == (Time { variable, ..self }),
    {
        Time { variable, ..self }
    }

    /// Sets the part that badassness wears down, and leaves the other coefficients as they are.
    pub fn with_badassness(self, badassness: Scalar) -> (time: Time)
        ensures
            time == (Time { badassness, ..self }),
    {
        Time { badassness, ..self }
    }

    /// Sets the part that skill wears down, and leaves the other coefficients as they are.
    pub fn with_skill(self, skill: Scalar) -> (time: Time)
        ensures
            time == (Time { skill, ..self }),
    {
        Time { skill, ..self }
    }

    /// Sets the part that swag wears down, and leaves the other coefficients as they are.
    pub fn with_swag(self, swag: Scalar) -> (time: Time)
        ensures
            time == (Time { swag, ..self }),
    {
        Time { swag, ..self }
    }

    /// The formula of these coefficients for a character with `stats`, the
    /// sum multiplied by `multiplier`: each coefficient stands with the
    /// attribute of its own name, and `variable` stands nowhere.
    pub open spec fn formula(self, stats: Stats, multiplier: Scalar) -> Formula {
        Formula {
            multiplier,
            fixed: self.fixed,
            badassness: Term { coefficient: self.badassness, points: stats.badassness },
            skill: Term { coefficient: self.skill, points: stats.skill },
            swag: Term { coefficient: self.swag, points: stats.swag },
        }
    }

    /// The cooldown for a character with `stats`: the sum is multiplied by
    /// the character's cooldown reduction.
    pub open spec fn spec_cooldown(&self, stats: &Stats) -> Formula {
        self.formula(*stats, stats.cooldown_reduction)
    }

    /// Writes out the cooldown for a character with `stats`: the sum is
    /// multiplied by the character's cooldown reduction.
    #[verifier::when_used_as_spec(spec_cooldown)]
    pub fn cooldown(&self, stats: &Stats) -> (formula: Formula)
        ensures
            formula == self.spec_cooldown(stats),
    {
        Formula {
            multiplier: stats.cooldown_reduction,
            fixed: self.fixed,
            badassness: Term { coefficient: self.badassness, points: stats.badassness },
            skill: Term { coefficient: self.skill, points: stats.skill },
            swag: Term { coefficient: self.swag, points: stats.swag },
        }
    }

    /// The time that the action takes a character with `stats`: the sum is
    /// multiplied by the character's speed.
    pub open spec fn spec_time(&self, stats: &Stats) -> Formula {
        self.formula(*stats, stats.speed)
    }

    /// Writes out the time that the action takes a character with `stats`:
    /// the sum is multiplied by the character's speed.
    #[verifier::when_used_as_spec(spec_time)]
    pub fn time(&self, stats: &Stats) -> (formula: Formula)
        ensures
            formula == self.spec_time(stats),
    {
        Formula {
            multiplier: stats.speed,
            fixed: self.fixed,
            badassness: Term { coefficient: self.badassness, points: stats.badassness },
            skill: Term { coefficient: self.skill, points: stats.skill },
            swag: Term { coefficient: self.swag, points: stats.swag },
        }
    }
}

/// With no coefficient set, both formulas are written with zero as the fixed
/// part and as the coefficient of every term, whatever the attributes are.
pub proof fn lemma_new_time_has_zero_coefficients(stats: Stats)
    ensures
        Time::new().cooldown(&stats).fixed == Scalar::zero(),
        Time::new().cooldown(&stats).terms_are_zero(),
        Time::new().time(&stats).fixed == Scalar::zero(),
        Time::new().time(&stats).terms_are_zero(),
{
}

/// With `fixed` as the only coefficient that was set, the cooldown is written
/// with the character's cooldown reduction as multiplier and the time with
/// the character's speed, each over a sum in which `fixed` stands alone: the
/// coefficient of every term is zero, whatever the attributes are.
pub proof fn lemma_fixed_time_reads_no_attribute(fixed: Scalar, stats: Stats)
    ensures
        ({
            let time = Time { fixed, ..Time::new() };
            &&& time.cooldown(&stats).multiplier == stats.cooldown_reduction
            &&& time.cooldown(&stats).fixed == fixed
            &&& time.cooldown(&stats).terms_are_zero()
            &&& time.time(&stats).multiplier == stats.speed
            &&& time.time(&stats).fixed == fixed
            &&& time.time(&stats).terms_are_zero()
        }),
{
}

/// Neither formula reads `variable`: two durations that differ in it alone
/// have the same cooldown and the same time.
pub proof fn lemma_variable_is_not_read(time: Time, variable: Scalar, stats: Stats)
    ensures
        (Time { variable, ..time }).cooldown(&stats) == time.cooldown(&stats),
        (Time { variable, ..time }).time(&stats) == time.time(&stats),
{
}

} // verus!
