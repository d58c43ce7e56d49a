//! The whole part of a double that is given by its bits, as in IEEE 754: a sign, eleven bits of
//! exponent, and fifty-two bits of fraction.
use vstd::arithmetic::power2::{
    lemma2_to64, lemma2_to64_rest, lemma_pow2_pos, lemma_pow2_strictly_increases, pow2,
};
use vstd::bits::{lemma_u64_shl_is_mul, lemma_u64_shr_is_div};
use vstd::prelude::*;

verus! {

/// The exponent field of the double with these bits.
pub open spec fn exponent_field(bits: u64) -> int {
    (bits as int / 0x10_0000_0000_0000) % 0x800
}

/// The fraction field of the double with these bits.
pub open spec fn fraction_field(bits: u64) -> int {
    bits as int % 0x10_0000_0000_0000
}

/// Whether the double with these bits is not a number.
pub open spec fn is_nan(bits: u64) -> bool {
    exponent_field(bits) == 0x7ff && fraction_field(bits) != 0
}

/// The size of the whole part of the double with these bits. With the exponent field `e` and the
/// fraction field `f`, the double has the size `(2^52 + f) * 2^(e - 1075)`, or one under 1 where
/// `e` is under 1023. An infinite double counts as larger than every finite one.
pub open spec fn whole_size(bits: u64) -> int {
    let significand = 0x10_0000_0000_0000 + fraction_field(bits);
    if exponent_field(bits) < 1023 {
        0
    } else if exponent_field(bits) < 1075 {
        significand / pow2((1075 - exponent_field(bits)) as nat) as int
    } else {
        significand * pow2((exponent_field(bits) - 1075) as nat)
    }
}

/// The whole part of the double with these bits: its value, rounded towards 0. It is 0 of what is
/// not a number.
pub open spec fn double_whole(bits: u64) -> int {
    if is_nan(bits) {
        0
    } else if bits >= 0x8000_0000_0000_0000 {
        -whole_size(bits)
    } else {
        whole_size(bits)
    }
}

/// `v` clamped to the `i64` range.
pub open spec fn clamped_i64(v: int) -> i64 {
    if v < i64::MIN {
        i64::MIN
    } else if v > i64::MAX {
        i64::MAX
    } else {
        v as i64
    }
}

/// The whole part of the double with these bits, clamped to the `i64` range.
#[must_use]
pub fn clamped_whole(bits: u64) -> (whole: i64)
    ensures
        whole == clamped_i64(double_whole(bits)),
{
    let negative = bits >= 0x8000_0000_0000_0000;
    let exponent: u64 = (bits / 0x10_0000_0000_0000) % 0x800;
    let fraction: u64 = bits % 0x10_0000_0000_0000;
    let significand: u64 = 0x10_0000_0000_0000 + fraction;
    if exponent < 1023 || (exponent == 0x7ff && fraction != 0) {
        return 0;
    }
    proof {
        lemma2_to64();
        lemma2_to64_rest();
    }
    if exponent >= 1086 {
        proof {
            lemma_large(significand as int, (exponent - 1075) as nat);
        }
        return if negative {
            i64::MIN
        } else {
            i64::MAX
        };
    }
    let size: u64 = if exponent < 1075 {
        let shift: u64 = 1075 - exponent;
        proof {
            lemma_u64_shr_is_div(significand, shift);
            lemma_smaller(significand as int, pow2(shift as nat) as int);
        }
        significand >> shift
    } else {
        let shift: u64 = exponent - 1075;
        proof {
            lemma_moderate(significand as int, shift as nat);
            lemma_u64_shl_is_mul(significand, shift);
        }
        significand << shift
    };
    if negative {
        -(size as i64)
    } else {
        size as i64
    }
}

/// From the exponent field 1086 on, a double is beyond the `i64` range.
proof fn lemma_large(significand: int, shift: nat)
    requires
        significand >= 0x10_0000_0000_0000,
        shift >= 11,
    ensures
        significand * pow2(shift) >= 0x8000_0000_0000_0000,
{
    lemma2_to64();
    if shift > 11 {
        lemma_pow2_strictly_increases(11, shift);
    }
    let factor = pow2(shift) as int;
    assert(significand * factor >= 0x10_0000_0000_0000 * 0x800) by (nonlinear_arith)
        requires
            significand >= 0x10_0000_0000_0000,
            factor >= 0x800,
    ;
}

/// Below the exponent field 1086, a double is within the `i64` range.
proof fn lemma_moderate(significand: int, shift: nat)
    requires
        0 <= significand < 0x20_0000_0000_0000,
        shift <= 10,
    ensures
        0 <= significand * pow2(shift) < 0x8000_0000_0000_0000,
{
    lemma2_to64();
    if shift < 10 {
        lemma_pow2_strictly_increases(shift, 10);
    }
    let factor = pow2(shift) as int;
    assert(0 <= significand * factor < 0x20_0000_0000_0000 * 0x400) by (nonlinear_arith)
        requires
            0 <= significand < 0x20_0000_0000_0000,
            0 <= factor <= 0x400,
    ;
}

/// A quotient is no larger than what was divided.
proof fn lemma_smaller(size: int, divisor: int)
    by (nonlinear_arith)
    requires
        size >= 0,
        divisor >= 1,
    ensures
        0 <= size / divisor <= size,
{
}

/// The whole part of a double by its fields, `e` the exponent and `2^52 + f` the significand: 0
/// where `e` is under 1023; from there on the number of times that `2^(1075 - e)` goes into the
/// significand, or the significand times `2^(e - 1075)`. The highest bit gives the sign, and what is
/// not a number counts as 0.
pub proof fn law_whole_part(bits: u64)
    ensures
        ({
            let e = (bits as int / 0x10_0000_0000_0000) % 0x800;
            let f = bits as int % 0x10_0000_0000_0000;
            let significand = 0x10_0000_0000_0000 + f;
            let whole = double_whole(bits);
            let size = if bits < 0x8000_0000_0000_0000 {
                whole
            } else {
                -whole
            };
            &&& size >= 0
            &&& e < 1023 || (e == 0x7ff && f != 0) ==> whole == 0
            &&& 1023 <= e < 1075 ==> size * pow2((1075 - e) as nat) <= significand < (size + 1)
                * pow2((1075 - e) as nat)
            &&& 1075 <= e && (e < 0x7ff || f == 0) ==> size == significand * pow2(
                (e - 1075) as nat,
            )
        }),
{
    let e = exponent_field(bits);
    let significand = 0x10_0000_0000_0000 + fraction_field(bits);
    if 1023 <= e < 1075 {
        lemma_pow2_pos((1075 - e) as nat);
        let factor = pow2((1075 - e) as nat) as int;
        let size = significand / factor;
        assert(size >= 0 && size * factor <= significand < (size + 1) * factor)
            by (nonlinear_arith)
            requires
                factor > 0,
                significand >= 0,
                size == significand / factor,
        ;
    } else if e >= 1075 {
        lemma_pow2_pos((e - 1075) as nat);
        let factor = pow2((e - 1075) as nat) as int;
        assert(significand * factor >= 0) by (nonlinear_arith)
            requires
                significand >= 0,
                factor > 0,
        ;
    }
}

/// Clamping brings a number into the `i64` range, and no number of the range lies nearer to it.
pub proof fn law_clamped_i64(v: int, other: i64)
    ensures
        other <= v ==> other <= clamped_i64(v),
        v <= other ==> clamped_i64(v) <= other,
{
}

} // verus!
