//! Single-precision numbers carried by their bit patterns.

use vstd::prelude::*;

verus! {

/// An IEEE-754 binary32 number, held as its 32 bits.
///
/// The library stores and hands on such numbers without ever computing with
/// them: two scalars are the same exactly when their bits are.
#[derive(Clone, Copy, Debug)]
pub struct Scalar {
    /// Sign, exponent and fraction, as `to_bits` of the number gives them.
    pub bits: u32,
}

impl Scalar {
    /// The bits of positive zero.
    pub open spec fn spec_zero() -> Scalar {
        Scalar { bits: 0 }
    }

    /// Positive zero.
    #[verifier::when_used_as_spec(spec_zero)]
    pub fn zero() -> (s: Scalar)
        ensures
            s == Self::spec_zero(),
    {
        Scalar { bits: 0 }
    }

    /// The bits of one: sign 0, biased exponent 127, fraction 0.
    pub open spec fn spec_one() -> Scalar {
        Scalar { bits: 0x3F80_0000 }
    }

    /// One.
    #[verifier::when_used_as_spec(spec_one)]
    pub fn one() -> (s: Scalar)
        ensures
            s == Self::spec_one(),
    {
        Scalar { bits: 0x3F80_0000 }
    }
}

} // verus!
