//! Character mechanics for a tabletop-style role-playing game.
//!
//! The crate holds the exact, integer side of the rules: a character's
//! attributes, the coefficients of an action's timing, the operands of the
//! attenuation formulas, the exponent of the success curve, and class
//! membership by whole-token matching. Single-precision numbers are carried
//! by their bit patterns and never computed with here; evaluating a formula
//! to a number is left to the caller.

pub mod ability;
pub mod character;
pub mod class;
pub mod scalar;
pub mod stats;
pub mod time;

pub use ability::{Ability, AbilityClone};
pub use character::{Character, CharacterView};
pub use scalar::Scalar;
pub use stats::{probability, Odds, Stats, HALF};
pub use time::{Formula, Term, Time};
