//! Double-precision numbers, read from their 64-bit pattern.
//!
//! A script may hand back a number with a fractional part. The library never
//! computes with such numbers: it carries the IEEE 754 binary64 pattern and
//! answers, by integer arithmetic on the three fields of the pattern, the two
//! questions that the coercion rules ask: is the number at least zero, and
//! what is its whole part.

use vstd::arithmetic::power2::*;
use vstd::bits::*;
use vstd::prelude::*;

verus! {

/// Two to the power 52: the weight of the hidden bit of the significand.
pub const HIDDEN_BIT: u64 = 0x10_0000_0000_0000;

/// The exponent field of a number whose significand counts in units of one.
pub const UNIT_EXPONENT: u64 = 1075;

/// The biased exponent: bits 52 to 62 of the pattern.
pub open spec fn exponent_field(bits: u64) -> int {
    (bits as int / 0x10_0000_0000_0000) % 0x800
}

/// The fraction: the low 52 bits of the pattern.
pub open spec fn fraction_field(bits: u64) -> int {
    bits as int % 0x10_0000_0000_0000
}

/// The sign bit: set for the numbers below zero and for minus zero.
pub open spec fn sign_set(bits: u64) -> bool {
    bits >= 0x8000_0000_0000_0000
}

/// Whether the pattern is one of the not-a-number patterns.
pub open spec fn not_a_number(bits: u64) -> bool {
    exponent_field(bits) == 0x7ff && fraction_field(bits) != 0
}

/// Whether the pattern is plus or minus infinity.
pub open spec fn infinite(bits: u64) -> bool {
    exponent_field(bits) == 0x7ff && fraction_field(bits) == 0
}

/// Whether the number compares as at least zero. Minus zero does; a
/// not-a-number compares with nothing.
pub open spec fn at_least_zero(bits: u64) -> bool {
    !not_a_number(bits) && (!sign_set(bits) || (exponent_field(bits) == 0 && fraction_field(bits)
        == 0))
}

/// Whether the number is below zero: the sign is set, and the pattern is
/// neither minus zero nor a not-a-number.
pub open spec fn below_zero(bits: u64) -> bool {
    sign_set(bits) && !not_a_number(bits) && !(exponent_field(bits) == 0 && fraction_field(bits)
        == 0)
}

/// The significand of a finite number, as an integer: the fraction, with the
/// hidden bit added unless the number is subnormal.
pub open spec fn significand(bits: u64) -> int {
    if exponent_field(bits) == 0 {
        fraction_field(bits)
    } else {
        0x10_0000_0000_0000 + fraction_field(bits)
    }
}

/// The power of two by which the significand of a finite number is scaled,
/// counted from the exponent field at which the scale is one.
pub open spec fn scale_field(bits: u64) -> int {
    if exponent_field(bits) == 0 {
        1
    } else {
        exponent_field(bits)
    }
}

/// The whole part of the magnitude of a finite number: the significand times
/// its power of two, rounded toward zero.
pub open spec fn whole_magnitude(bits: u64) -> int {
    if scale_field(bits) >= 1075 {
        significand(bits) * pow2((scale_field(bits) - 1075) as nat)
    } else {
        significand(bits) / (pow2((1075 - scale_field(bits)) as nat) as int)
    }
}

/// The number as an unsigned 64-bit integer: its whole part where that fits,
/// the largest integer above that and for plus infinity, zero for everything
/// below zero and for a not-a-number.
pub open spec fn truncated(bits: u64) -> u64 {
    if not_a_number(bits) || sign_set(bits) {
        0
    } else if infinite(bits) || whole_magnitude(bits) > u64::MAX {
        u64::MAX
    } else {
        whole_magnitude(bits) as u64
    }
}

/// The text that the standard formatter prints for the number.
pub uninterp spec fn display_text(bits: u64) -> Seq<char>;

/// Formats the number with the standard formatter, `Display` of the
/// interpreter's double-precision type. The result is known by its name only.
#[verifier::external_body]
pub(crate) fn to_text(bits: u64) -> (r: String)
    ensures
        r@ == display_text(bits),
{
    format!("{}", rhai::FLOAT::from_bits(bits))
}

/// Whether the number compares as at least zero.
pub fn is_at_least_zero(bits: u64) -> (b: bool)
    ensures
        b == at_least_zero(bits),
{
    let exponent: u64 = (bits >> 52) & 0x7ff;
    let fraction: u64 = bits & 0xf_ffff_ffff_ffff;
    proof {
        lemma_fields(bits);
    }
    if exponent == 0x7ff && fraction != 0 {
        false
    } else {
        bits < 0x8000_0000_0000_0000 || (exponent == 0 && fraction == 0)
    }
}

/// The number as an unsigned 64-bit integer, rounded toward zero and held to
/// the range of the type.
pub fn to_u64(bits: u64) -> (r: u64)
    ensures
        r == truncated(bits),
{
    let exponent: u64 = (bits >> 52) & 0x7ff;
    let fraction: u64 = bits & 0xf_ffff_ffff_ffff;
    proof {
        lemma_fields(bits);
    }
    if bits >= 0x8000_0000_0000_0000 {
        0
    } else if exponent == 0x7ff {
        if fraction != 0 {
            0
        } else {
            u64::MAX
        }
    } else if exponent < 1023 {
        proof {
            lemma_below_one(bits);
        }
        0
    } else if exponent > 1086 {
        proof {
            lemma_beyond_range(bits);
        }
        u64::MAX
    } else {
        let whole: u64 = fraction + HIDDEN_BIT;
        if exponent >= UNIT_EXPONENT {
            let shift: u64 = exponent - UNIT_EXPONENT;
            proof {
                lemma2_to64();
                if shift < 11 {
                    lemma_pow2_strictly_increases(shift as nat, 11);
                }
                assert(whole * pow2(shift as nat) <= u64::MAX) by (nonlinear_arith)
                    requires
                        0 <= whole < 0x20_0000_0000_0000,
                        0 <= pow2(shift as nat) <= 0x800,
                ;
                lemma_u64_shl_is_mul(whole, shift);
            }
            whole << shift
        } else {
            let shift: u64 = UNIT_EXPONENT - exponent;
            proof {
                lemma_u64_shr_is_div(whole, shift);
            }
            whole >> shift
        }
    }
}

/// The shifts and masks that read the pattern give its fields.
proof fn lemma_fields(bits: u64)
    ensures
        ((bits >> 52) & 0x7ff) as int == exponent_field(bits),
        (bits & 0xf_ffff_ffff_ffff) as int == fraction_field(bits),
        0 <= exponent_field(bits) < 0x800,
        0 <= fraction_field(bits) < 0x10_0000_0000_0000,
{
    assert((bits >> 52) & 0x7ff == (bits / 0x10_0000_0000_0000) % 0x800) by (bit_vector);
    assert(bits & 0xf_ffff_ffff_ffff == bits % 0x10_0000_0000_0000) by (bit_vector);
}

/// A finite number whose exponent field is under 1023 has magnitude under one.
proof fn lemma_below_one(bits: u64)
    requires
        exponent_field(bits) < 1023,
    ensures
        whole_magnitude(bits) == 0,
{
    let down = (1075 - scale_field(bits)) as nat;
    lemma2_to64_rest();
    if down > 53 {
        lemma_pow2_strictly_increases(53, down);
    }
    assert(pow2(down) >= 0x20_0000_0000_0000);
    assert(significand(bits) < 0x20_0000_0000_0000);
    assert(significand(bits) / (pow2(down) as int) == 0) by (nonlinear_arith)
        requires
            0 <= significand(bits) < pow2(down),
    ;
}

/// A finite number whose exponent field is over 1086 is at least two to the
/// power 64.
proof fn lemma_beyond_range(bits: u64)
    requires
        1086 < exponent_field(bits),
    ensures
        whole_magnitude(bits) > u64::MAX,
{
    let up = (scale_field(bits) - 1075) as nat;
    lemma2_to64();
    if up > 12 {
        lemma_pow2_strictly_increases(12, up);
    }
    assert(pow2(up) >= 0x1000);
    assert(significand(bits) * pow2(up) >= 0x10_0000_0000_0000 * 0x1000) by (nonlinear_arith)
        requires
            significand(bits) >= 0x10_0000_0000_0000,
            pow2(up) >= 0x1000,
    ;
}

} // verus!
