//! Single-precision numbers, held by their bit patterns.
//!
//! The library stores coordinates, colours and speeds and compares them. It does no
//! arithmetic on them: whoever calls the library computes with the numbers themselves.

use vstd::arithmetic::power2::{
    lemma_pow2_pos, lemma_pow2_strictly_increases, lemma_pow2_unfold, pow2,
};
use vstd::prelude::*;

verus! {

/// The weight of the sign bit.
pub const SIGN: u32 = 0x8000_0000;

/// The magnitude of an infinity. Greater magnitudes are not numbers.
pub const INFINITY: u32 = 0x7f80_0000;

/// The number of fractions that share one exponent.
pub const FRACTIONS: u32 = 0x0080_0000;

/// A single-precision number, held as its IEEE 754 bit pattern.
#[derive(Clone, Copy, Debug, PartialEq, Eq, Structural)]
pub struct Scalar {
    pub bits: u32,
}

/// The size of a number of magnitude `magnitude`, counted in the smallest positive number:
/// numbers of exponent zero are counted by their fraction, every other one has a leading
/// one before its fraction and is doubled with each step of its exponent.
pub open spec fn size_of_magnitude(magnitude: int) -> int {
    let exponent = magnitude / FRACTIONS as int;
    let fraction = magnitude % FRACTIONS as int;
    if exponent == 0 {
        fraction
    } else {
        (FRACTIONS + fraction) * pow2((exponent - 1) as nat)
    }
}

impl Scalar {
    /// Whether the sign bit is set.
    pub open spec fn is_negative(self) -> bool {
        self.bits >= SIGN
    }

    /// The pattern without its sign bit.
    pub open spec fn magnitude(self) -> int {
        if self.is_negative() {
            self.bits - SIGN
        } else {
            self.bits as int
        }
    }

    /// Whether the pattern stands for no number at all.
    pub open spec fn is_nan(self) -> bool {
        self.magnitude() > INFINITY
    }

    /// The number itself, counted in the smallest positive number. An infinity counts as
    /// one step beyond the greatest finite number.
    pub open spec fn value(self) -> int {
        if self.is_negative() {
            -size_of_magnitude(self.magnitude())
        } else {
            size_of_magnitude(self.magnitude())
        }
    }

    /// The place of the pattern in the order of the numbers: its magnitude, with its sign.
    pub open spec fn rank(self) -> int {
        if self.is_negative() {
            -self.magnitude()
        } else {
            self.magnitude()
        }
    }

    /// Whether both patterns are numbers and this one is the smaller.
    pub open spec fn is_below(self, other: Scalar) -> bool {
        &&& !self.is_nan()
        &&& !other.is_nan()
        &&& self.rank() < other.rank()
    }

    /// Whether this number is smaller than `other`: never where one of them is no number,
    /// and neither zero is smaller than the other.
    pub fn below(self, other: Scalar) -> (answer: bool)
        ensures
            answer == self.is_below(other),
    {
        let mine: u32 = if self.bits >= SIGN { self.bits - SIGN } else { self.bits };
        let theirs: u32 = if other.bits >= SIGN { other.bits - SIGN } else { other.bits };
        if mine > INFINITY || theirs > INFINITY {
            return false;
        }
        if self.bits >= SIGN {
            if other.bits >= SIGN {
                mine > theirs
            } else {
                mine > 0 || theirs > 0
            }
        } else {
            other.bits < SIGN && mine < theirs
        }
    }
}

/// A greater magnitude is a greater size.
proof fn lemma_sizes_follow_magnitudes(small: int, great: int)
    requires
        0 <= small,
        0 <= great,
    ensures
        size_of_magnitude(0) == 0,
        small < great ==> size_of_magnitude(small) < size_of_magnitude(great),
{
    if small < great {
        let low = small / FRACTIONS as int;
        let high = great / FRACTIONS as int;
        let low_fraction = small % FRACTIONS as int;
        let high_fraction = great % FRACTIONS as int;
        assert(low <= high);
        if high == 0 {
        } else {
            let top = pow2((high - 1) as nat) as int;
            lemma_pow2_pos((high - 1) as nat);
            if low == 0 {
                assert((FRACTIONS + high_fraction) * top >= FRACTIONS) by (nonlinear_arith)
                    requires
                        top >= 1,
                        high_fraction >= 0,
                ;
            } else {
                let base = pow2((low - 1) as nat) as int;
                lemma_pow2_pos((low - 1) as nat);
                if low == high {
                    assert(low_fraction < high_fraction);
                    assert((FRACTIONS + low_fraction) * top < (FRACTIONS + high_fraction) * top)
                        by (nonlinear_arith)
                        requires
                            top >= 1,
                            low_fraction < high_fraction,
                    ;
                } else {
                    lemma_pow2_unfold(low as nat);
                    if low < high - 1 {
                        lemma_pow2_strictly_increases(low as nat, (high - 1) as nat);
                    }
                    assert(top >= 2 * base);
                    assert((FRACTIONS + low_fraction) * base < (FRACTIONS + high_fraction) * top)
                        by (nonlinear_arith)
                        requires
                            top >= 2 * base,
                            base >= 1,
                            0 <= low_fraction < FRACTIONS,
                            high_fraction >= 0,
                    ;
                }
            }
        }
    }
}

/// The order of the patterns is the order of the numbers that they stand for.
pub proof fn law_below_compares_values(a: Scalar, b: Scalar)
    requires
        !a.is_nan(),
        !b.is_nan(),
    ensures
        a.is_below(b) <==> a.value() < b.value(),
{
    lemma_sizes_follow_magnitudes(a.magnitude(), b.magnitude());
    lemma_sizes_follow_magnitudes(b.magnitude(), a.magnitude());
    lemma_sizes_follow_magnitudes(0, a.magnitude());
    lemma_sizes_follow_magnitudes(0, b.magnitude());
}

/// The order of the numbers in bits. Among the patterns without a sign, from zero up to infinity,
/// the smaller pattern is the smaller number; among those with a sign it is the greater; a
/// number with a sign is below every number without one, but the two zeros are equal; and past
/// the infinities there are no numbers, and nothing is below or above them.
pub proof fn law_order_of_the_patterns(a: Scalar, b: Scalar)
    ensures
        a.bits <= 0x7f80_0000 && b.bits <= 0x7f80_0000 ==> (a.is_below(b) <==> a.bits < b.bits),
        0x8000_0000 <= a.bits <= 0xff80_0000 && 0x8000_0000 <= b.bits <= 0xff80_0000 ==> (
        a.is_below(b) <==> a.bits > b.bits),
        0x8000_0000 <= a.bits <= 0xff80_0000 && b.bits <= 0x7f80_0000 ==> (a.is_below(b) <==> !(
        a.bits == 0x8000_0000 && b.bits == 0)),
        a.bits <= 0x7f80_0000 && 0x8000_0000 <= b.bits ==> !a.is_below(b),
        0x7f80_0000 < a.bits < 0x8000_0000 || 0xff80_0000 < a.bits ==> !a.is_below(b)
            && !b.is_below(a),
{
}

} // verus!
