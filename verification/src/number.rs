//! Numbers as a style holds them.

use vstd::prelude::*;

verus! {

/// A real quantity, written down exactly.
///
/// The library moves such numbers around and never calculates with them, so each is kept in
/// the form in which it was given. What it stands for is [`Scalar::value`]; a caller that
/// works in single precision takes the nearest number that it has.
#[derive(Clone, Copy, Debug, PartialEq, Eq)]
pub enum Scalar {
    /// A whole number.
    Integer(i64),
    /// A double-precision number, by its IEEE 754 bit pattern.
    Real(u64),
    /// The quotient of the first number by the second.
    Ratio(u8, u8),
}

/// `x` doubled `e` times, or halved `-e` times where `e` is negative.
pub open spec fn scaled(x: real, e: int) -> real
    decreases (if e < 0 {
        -e
    } else {
        e
    }),
{
    if e == 0 {
        x
    } else if e > 0 {
        scaled(x, e - 1) * 2real
    } else {
        scaled(x, e + 1) / 2real
    }
}

/// The number that the IEEE 754 double of this bit pattern is, and none for a pattern that is
/// an infinity or no number.
///
/// The first bit is the sign, the next eleven the exponent and the last fifty-two the
/// fraction.
pub open spec fn double_value(bits: u64) -> Option<real> {
    let negative = bits >> 63 == 1;
    let exponent = ((bits >> 52) & 0x7ff) as int;
    let fraction = (bits & 0xf_ffff_ffff_ffff) as int;
    let magnitude = if exponent == 0 {
        scaled(fraction as real, -1074)
    } else {
        scaled((fraction + 0x10_0000_0000_0000) as real, exponent - 1075)
    };
    if exponent == 0x7ff {
        None
    } else if negative {
        Some(-magnitude)
    } else {
        Some(magnitude)
    }
}

/// Half of a number, and none of none.
pub open spec fn half(x: Option<real>) -> Option<real> {
    match x {
        Some(x) => Some(x / 2real),
        None => None,
    }
}

/// A number and one more, and none of none.
pub open spec fn one_more(x: Option<real>) -> Option<real> {
    match x {
        Some(x) => Some(x + 1real),
        None => None,
    }
}

impl Scalar {
    /// The given number of hundredths.
    pub open spec fn hundredths(n: u8) -> Scalar {
        Scalar::Ratio(n, 100)
    }

    /// A colour channel of eight bits: the byte as a part of 255.
    pub open spec fn channel(byte: u8) -> Scalar {
        Scalar::Ratio(byte, 255)
    }

    /// The number that this stands for. A quotient by nought stands for none, and so does the
    /// bit pattern of an infinity or of no number: a caller in single precision has for
    /// these what its own division and narrowing give.
    pub open spec fn value(self) -> Option<real> {
        match self {
            Scalar::Integer(n) => Some(n as int as real),
            Scalar::Real(bits) => double_value(bits),
            Scalar::Ratio(n, d) => if d == 0 {
                None
            } else {
                Some((n as int as real) / (d as int as real))
            },
        }
    }
}

/// The bit pattern `0x3FF0000000000000` is the double one.
pub proof fn lemma_double_one()
    ensures
        double_value(0x3FF0_0000_0000_0000) == Some(1real),
{
    let bits: u64 = 0x3FF0_0000_0000_0000;
    assert(bits >> 63 == 0 && (bits >> 52) & 0x7ff == 1023 && bits & 0xf_ffff_ffff_ffff == 0)
        by (bit_vector)
        requires
            bits == 0x3FF0_0000_0000_0000u64,
    ;
    reveal_with_fuel(scaled, 60);
}

/// The bit pattern `0xBFE8000000000000` is the double minus three quarters.
pub proof fn lemma_double_minus_three_quarters()
    ensures
        double_value(0xBFE8_0000_0000_0000) == Some(-(3real / 4real)),
{
    let bits: u64 = 0xBFE8_0000_0000_0000;
    assert(bits >> 63 == 1 && (bits >> 52) & 0x7ff == 1022 && bits & 0xf_ffff_ffff_ffff
        == 0x8_0000_0000_0000) by (bit_vector)
        requires
            bits == 0xBFE8_0000_0000_0000u64,
    ;
    reveal_with_fuel(scaled, 60);
}

/// The bit pattern `0x7FF0000000000000`, the double infinity, stands for no number.
pub proof fn lemma_double_infinity()
    ensures
        double_value(0x7FF0_0000_0000_0000) is None,
{
    let bits: u64 = 0x7FF0_0000_0000_0000;
    assert((bits >> 52) & 0x7ff == 0x7ff) by (bit_vector)
        requires
            bits == 0x7FF0_0000_0000_0000u64,
    ;
}

/// A byte as a part of 255 stands for the byte divided by 255, and a number of hundredths
/// for the number divided by 100.
pub proof fn lemma_quotients(n: u8)
    ensures
        Scalar::channel(n).value() == Some((n as int as real) / 255real),
        Scalar::hundredths(n).value() == Some((n as int as real) / 100real),
        Scalar::Integer(1).value() == Some(1real),
        Scalar::Integer(0).value() == Some(0real),
{
}

} // verus!
