//! IEEE-754 binary64 values as bit patterns, and what each pattern denotes.

use vstd::prelude::*;

verus! {

/// The weight of the sign bit in a binary64 pattern.
pub const SIGN_MASK: u64 = 0x8000_0000_0000_0000;

/// All bits of a binary64 pattern but the sign bit.
pub const MAGNITUDE_MASK: u64 = 0x7FFF_FFFF_FFFF_FFFF;

/// The number of patterns that share one sign and one biased exponent: two to
/// the power of the width of the fraction field.
pub const FRACTION_SPAN: u64 = 0x10_0000_0000_0000;

/// The number of biased exponents.
pub const EXPONENT_SPAN: u64 = 0x800;

/// What a binary64 bit pattern denotes.
pub enum DoubleValue {
    /// Not a number.
    Nan,
    /// An infinity of the given sign.
    Infinite { negative: bool },
    /// The real number `significand * 2^exponent`, negated if `negative`.
    /// A zero significand with `negative` set is the negative zero.
    Finite { negative: bool, significand: nat, exponent: int },
}

/// An IEEE-754 binary64 value, held as its bit pattern. Two of them are
/// equal when their patterns are: the two zeros differ, and a NaN equals
/// itself.
#[derive(Clone, Copy, Debug, PartialEq, Eq, Structural)]
pub struct Double {
    pub bits: u64,
}

impl Double {
    /// The sign bit.
    pub open spec fn sign(self) -> bool {
        self.bits >= SIGN_MASK
    }

    /// The eleven-bit exponent field.
    pub open spec fn biased_exponent(self) -> nat {
        ((self.bits / FRACTION_SPAN) % EXPONENT_SPAN) as nat
    }

    /// The fifty-two-bit fraction field.
    pub open spec fn fraction(self) -> nat {
        (self.bits % FRACTION_SPAN) as nat
    }

    /// Whether the pattern denotes a number equal to zero, of either sign.
    pub open spec fn spec_is_zero(self) -> bool {
        self@ matches DoubleValue::Finite { significand, .. } && significand == 0
    }

    /// Tells whether the value compares equal to zero: true of the positive
    /// and of the negative zero, false of every other number, of the
    /// infinities and of every NaN.
    #[verifier::when_used_as_spec(spec_is_zero)]
    pub fn is_zero(self) -> (zero: bool)
        ensures
            zero == self.spec_is_zero(),
    {
        let bits: u64 = self.bits;
        assert((bits & MAGNITUDE_MASK == 0) <==> ((bits / FRACTION_SPAN) % EXPONENT_SPAN == 0 && bits
            % FRACTION_SPAN == 0)) by (bit_vector);
        bits & MAGNITUDE_MASK == 0
    }
}

impl View for Double {
    type V = DoubleValue;

    /// Decodes the pattern: the top exponent marks infinities and NaNs, the
    /// bottom exponent the zeros and subnormal numbers, and every exponent
    /// between them a normal number with an implicit leading significand bit.
    open spec fn view(&self) -> DoubleValue {
        if self.biased_exponent() == EXPONENT_SPAN - 1 {
            if self.fraction() == 0 {
                DoubleValue::Infinite { negative: self.sign() }
            } else {
                DoubleValue::Nan
            }
        } else if self.biased_exponent() == 0 {
            DoubleValue::Finite {
                negative: self.sign(),
                significand: self.fraction(),
                exponent: -1074,
            }
        } else {
            DoubleValue::Finite {
                negative: self.sign(),
                significand: FRACTION_SPAN as nat + self.fraction(),
                exponent: self.biased_exponent() - 1075,
            }
        }
    }
}

/// The zeros are two patterns: all bits clear, and the sign bit alone.
pub proof fn lemma_zero_patterns(value: Double)
    ensures
        value.is_zero() <==> value.bits == 0 || value.bits == SIGN_MASK,
{
    let bits: u64 = value.bits;
    assert(((bits / FRACTION_SPAN) % EXPONENT_SPAN == 0 && bits % FRACTION_SPAN == 0) <==> (bits == 0
        || bits == SIGN_MASK)) by (bit_vector);
}

} // verus!
