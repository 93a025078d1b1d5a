//! Characters: a name, a class label, attributes and abilities.

use vstd::prelude::*;
use crate::ability::Ability;
use crate::class::{contains_token, has_token, lowercase, lowercased};
use crate::stats::Stats;

verus! {

/// A character, player or not, with abilities of kind `A`.
///
/// A character owns its attributes and its abilities: a copy of it holds
/// copies of both.
#[derive(Debug)]
pub struct Character<A: Ability> {
    name: String,
    class: String,
    stats: Stats,
    abilities: Vec<A>,
}

/// What a character is made of.
pub struct CharacterView<A> {
    /// The name of the character.
    pub name: Seq<char>,
    /// The class label: free text that names one class or several.
    pub class: Seq<char>,
    /// The attributes.
    pub stats: Stats,
    /// The abilities, in the order in which they were attached.
    pub abilities: Seq<A>,
}

impl<A: Ability> View for Character<A> {
    type V = CharacterView<A>;

    closed spec fn view(&self) -> CharacterView<A> {
        CharacterView {
            name: self.name@,
            class: self.class@,
            stats: self.stats,
            abilities: self.abilities@,
        }
    }
}

impl<A: Ability> Clone for Character<A> {
    /// Makes a copy of the character, each ability copied by its own
    /// `clone_box`. The copy is equal to the character and shares nothing
    /// with it.
    fn clone(&self) -> (copy: Self)
        ensures
            copy@ == self@,
    {
        let mut abilities: Vec<A> = Vec::new();
        let mut i: usize = 0;
        while i < self.abilities.len()
            invariant
                i <= self.abilities.len(),
                abilities@ == self.abilities@.subrange(0, i as int),
            decreases self.abilities.len() - i,
        {
            let ability = self.abilities[i].clone_box();
            abilities.push(*ability);
            i = i + 1;
        }
        assert(abilities@ == self.abilities@);
        Character {
            name: self.name.clone(),
            class: self.class.clone(),
            stats: self.stats,
            abilities,
        }
    }
}

impl<A: Ability> Character<A> {
    /// Makes a character at its first level, without abilities.
    pub fn new(name: &str, class: &str) -> (character: Self)
        ensures
            character@ == (CharacterView::<A> {
                name: name@,
                class: class@,
                stats: Stats::new(),
                abilities: Seq::empty(),
            }),
    {
        Character {
            name: name.to_owned(),
            class: class.to_owned(),
            stats: Stats::new(),
            abilities: Vec::new(),
        }
    }

    /// Tells whether the character is of the class `class`: whether `class`
    /// is one of the tokens of the class label, both taken in lower case.
    pub fn is_a(&self, class: &str) -> (b: bool)
        ensures
            b == has_token(lowercase(self@.class), lowercase(class@)),
    {
        let label = lowercased(self.class.as_str());
        let tag = lowercased(class);
        contains_token(label.as_str(), tag.as_str())
    }

    /// The name of the character.
    pub fn name(&self) -> (name: &str)
        ensures
            name@ == self@.name,
    {
        self.name.as_str()
    }

    /// The class label, as it was given.
    pub fn class(&self) -> (class: &str)
        ensures
            class@ == self@.class,
    {
        self.class.as_str()
    }

    /// The attributes of the character.
    pub fn stats(&self) -> (stats: &Stats)
        ensures
            *stats == self@.stats,
    {
        &self.stats
    }

    /// Replaces the attributes of the character, and nothing else.
    pub fn set_stats(&mut self, stats: Stats)
        ensures
            final(self)@ == (CharacterView { stats, ..old(self)@ }),
    {
        self.stats = stats;
    }

    /// The abilities of the character, in the order in which they were
    /// attached.
    pub fn abilities(&self) -> (abilities: &Vec<A>)
        ensures
            abilities@ == self@.abilities,
    {
        &self.abilities
    }

    /// Attaches `ability` behind the abilities that the character has, and
    /// changes nothing else.
    pub fn add_ability(&mut self, ability: A)
        ensures
            final(self)@ == (CharacterView {
                abilities: old(self)@.abilities.push(ability),
                ..old(self)@
            }),
    {
        self.abilities.push(ability);
    }
}

} // verus!
