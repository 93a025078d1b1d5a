//! What a character can do beyond its attributes.

use vstd::prelude::*;
use crate::stats::Stats;
use crate::time::Time;

verus! {

/// Duplication of an ability, written by hand for each kind of ability.
pub trait AbilityClone: Sized {
    /// Makes a copy that is equal to this ability and shares nothing with it.
    fn clone_box(&self) -> (copy: Box<Self>)
        ensures
            *copy == *self,
    ;
}

/// An ability of a character.
///
/// A new kind of ability is a type that gives its name and its own copy;
/// whatever else it leaves out is free, instant and without effect.
pub trait Ability: AbilityClone + core::fmt::Debug {
    /// The name of the ability: lower case, and shared with no other kind.
    fn name(&self) -> &str;

    /// Adjusts the attributes of a character that has the ability. Left out,
    /// it changes nothing.
    fn stats_modifier(&self, stats: &mut Stats)
        default_ensures
            *final(stats) == *old(stats),
    {
    }

    /// The coefficients of the ability's cooldown. Left out, there is none.
    fn cooldown(&self) -> (time: Time)
        default_ensures
            time == Time::new(),
    {
        Time::new()
    }

    /// The coefficients of the time that the ability takes. Left out, it takes
    /// no time at all.
    fn time(&self) -> (time: Time)
        default_ensures
            time == Time::new(),
    {
        Time::new()
    }
}

} // verus!
