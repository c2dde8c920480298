//! Reading double-precision numbers from their bit patterns as fixed-point
//! numbers, and writing fixed-point numbers as such patterns.
//!
//! A double is one sign bit, eleven exponent bits and fifty-two fraction
//! bits. With exponent bits `e` and fraction bits `f` its magnitude is
//! `f / 2^1074` where `e` is zero, `(2^52 + f) / 2^(1075 - e)` where `e` is
//! 1 to 2046, and no number where `e` is 2047.

use vstd::prelude::*;
use vstd::arithmetic::div_mod::{
    lemma_basic_div,
    lemma_fundamental_div_mod,
    lemma_fundamental_div_mod_converse,
    lemma_mod_bound,
};
use vstd::arithmetic::power2::{
    lemma2_to64,
    lemma_pow2_adds,
    lemma_pow2_pos,
    lemma_pow2_strictly_increases,
    lemma_pow2_unfold,
    pow2,
};

verus! {

/// Two to the fifty-second: the span of the fraction bits.
pub const FRACTION_SPAN: u64 = 0x10_0000_0000_0000;

/// Two to the sixty-third: the sign bit.
pub const SIGN_BIT: u64 = 0x8000_0000_0000_0000;

/// The sign bit is set.
pub open spec fn is_negative(bits: u64) -> bool {
    bits >= SIGN_BIT
}

/// The exponent bits.
pub open spec fn exponent_of(bits: u64) -> int {
    (bits as int / FRACTION_SPAN as int) % 2048
}

/// The fraction bits.
pub open spec fn fraction_of(bits: u64) -> int {
    bits as int % FRACTION_SPAN as int
}

/// The bits stand for a number: neither an infinity nor a NaN.
pub open spec fn is_finite(bits: u64) -> bool {
    exponent_of(bits) != 2047
}

/// The whole number `s` with magnitude `s / 2^scale_of(bits)`.
pub open spec fn significand_of(bits: u64) -> int {
    if exponent_of(bits) == 0 {
        fraction_of(bits)
    } else {
        fraction_of(bits) + FRACTION_SPAN as int
    }
}

/// The power of two that the significand is divided by; negative where the
/// significand is multiplied.
pub open spec fn scale_of(bits: u64) -> int {
    if exponent_of(bits) == 0 {
        1074
    } else {
        1075 - exponent_of(bits)
    }
}

/// The whole number nearest to `n / d`, the greater of two that are equally
/// near (for `n >= 0`, `d > 0`).
pub open spec fn nearest_quotient(n: int, d: int) -> int {
    (2 * n + d) / (2 * d)
}

/// The magnitude of a finite double in millionths, rounded to the nearest
/// whole millionth, halves away from zero.
pub open spec fn micro_magnitude(bits: u64) -> int {
    let millionths = significand_of(bits) * 1_000_000;
    if scale_of(bits) >= 0 {
        nearest_quotient(millionths, pow2(scale_of(bits) as nat) as int)
    } else {
        millionths * pow2((-scale_of(bits)) as nat)
    }
}

/// The double as a fixed-point number of millionths: its value rounded to
/// the nearest millionth. None for an infinity, for a NaN, and for a value
/// whose magnitude in millionths is beyond `i64::MAX`.
pub open spec fn spec_micro_from_bits(bits: u64) -> Option<i64> {
    if !is_finite(bits) || micro_magnitude(bits) > i64::MAX {
        None
    } else if is_negative(bits) {
        Some((-micro_magnitude(bits)) as i64)
    } else {
        Some(micro_magnitude(bits) as i64)
    }
}

/// A double that is read lies within half a millionth of what it is read
/// as: its magnitude times a million, less the magnitude read, is at least
/// minus a half and less than a half.
pub proof fn lemma_reading_is_within_half_a_millionth(bits: u64)
    requires
        is_finite(bits),
        scale_of(bits) >= 0,
    ensures
        -pow2(scale_of(bits) as nat) <= 2 * excess(
            micro_magnitude(bits),
            significand_of(bits),
            scale_of(bits) as nat,
        ) < pow2(scale_of(bits) as nat),
{
    let d = pow2(scale_of(bits) as nat) as int;
    let x = 2 * (significand_of(bits) * 1_000_000) + d;
    lemma_pow2_pos(scale_of(bits) as nat);
    lemma_fundamental_div_mod(x, 2 * d);
    lemma_mod_bound(x, 2 * d);
    assert((2 * d) * (x / (2 * d)) == 2 * (micro_magnitude(bits) * d)) by (nonlinear_arith)
        requires
            micro_magnitude(bits) == x / (2 * d),
    ;
}

/// Two to the power `e`, for `e` up to 73.
fn power_of_two(e: u64) -> (p: u128)
    requires
        e <= 73,
    ensures
        p == pow2(e as nat),
        0 < p <= 0x200_0000_0000_0000_0000,
{
    let mut p: u128 = 1;
    let mut i: u64 = 0;
    proof {
        lemma2_to64();
        lemma_pow2_adds(64, 9);
    }
    while i < e
        invariant
            i <= e <= 73,
            p == pow2(i as nat),
            0 < p <= 0x200_0000_0000_0000_0000,
            pow2(73) == 0x200_0000_0000_0000_0000,
        decreases e - i,
    {
        proof {
            lemma_pow2_unfold((i + 1) as nat);
            lemma_pow2_strictly_increases(i as nat, 73);
            if i + 1 < 73 {
                lemma_pow2_strictly_increases((i + 1) as nat, 73);
            }
        }
        p = p * 2;
        i = i + 1;
    }
    p
}

/// Reads a double from its bits as a fixed-point number of millionths.
pub fn micro_from_bits(bits: u64) -> (r: Option<i64>)
    ensures
        r == spec_micro_from_bits(bits),
{
    let negative: bool = bits >= SIGN_BIT;
    let exponent: u64 = (bits / FRACTION_SPAN) % 2048;
    let fraction: u64 = bits % FRACTION_SPAN;
    if exponent == 2047 {
        return None;
    }
    if exponent >= 1075 {
        proof {
            let s = significand_of(bits);
            let k = (-scale_of(bits)) as nat;
            lemma_pow2_pos(k);
            lemma2_to64();
            assert(s * 1_000_000 * pow2(k) >= s * 1_000_000) by (nonlinear_arith)
                requires
                    s >= 0,
                    pow2(k) >= 1,
            ;
            assert(nearest_quotient(s * 1_000_000, 1) == s * 1_000_000);
        }
        return None;
    }
    let significand: u64 = if exponent == 0 {
        fraction
    } else {
        fraction + FRACTION_SPAN
    };
    let scale: u64 = if exponent == 0 {
        1074
    } else {
        1075 - exponent
    };
    let millionths: u128 = (significand as u128) * 1_000_000;
    if scale >= 74 {
        proof {
            lemma2_to64();
            lemma_pow2_adds(64, 10);
            if scale > 74 {
                lemma_pow2_strictly_increases(74, scale as nat);
            }
            let d = pow2(scale as nat) as int;
            lemma_basic_div(2 * millionths + d, 2 * d);
        }
        return Some(0);
    }
    let divisor: u128 = power_of_two(scale);
    let magnitude: u128 = (2 * millionths + divisor) / (2 * divisor);
    if magnitude > 0x7fff_ffff_ffff_ffff {
        return None;
    }
    if negative {
        Some(-(magnitude as i64))
    } else {
        Some(magnitude as i64)
    }
}

/// The magnitude of a fixed-point number.
pub open spec fn magnitude_of(number: i64) -> int {
    if number < 0 {
        -(number as int)
    } else {
        number as int
    }
}

/// How far the double with significand `significand` at scale `scale`
/// lies above `magnitude` millionths, in millionths of the double's last
/// place; negative where it lies below. Divided by two to the power `scale`
/// it is the distance in millionths.
pub open spec fn excess(magnitude: int, significand: int, scale: nat) -> int {
    significand * 1_000_000 - magnitude * pow2(scale)
}

/// `bits` is the fixed-point number `number` written as a double: zero for
/// zero, and else the normal double with the sign of `number` that is
/// nearest to `number` millionths, the one with the even significand where
/// two are equally near. The next double above is one last place away; the
/// next below is one away too, or half of one where the significand is the
/// least there is.
pub open spec fn is_written_as(number: i64, bits: u64) -> bool {
    if number == 0 {
        bits == 0
    } else {
        let gap = excess(magnitude_of(number), significand_of(bits), scale_of(bits) as nat);
        let even = significand_of(bits) % 2 == 0;
        &&& is_negative(bits) == (number < 0)
        &&& 1 <= exponent_of(bits) <= 1075
        &&& -500_000 <= gap
        &&& gap == -500_000 ==> even
        &&& if fraction_of(bits) == 0 {
            gap <= 250_000
        } else {
            gap <= 500_000 && (gap == 500_000 ==> even)
        }
    }
}

/// A number written at one scale lies beyond every significand but the
/// greatest at the next scale, and beyond all of them at scales after that.
proof fn lemma_next_scale_is_beyond(m: int, sa: int, ka: nat, kb: nat)
    requires
        ka < kb,
        0 < m,
        0x10_0000_0000_0000 <= sa,
        excess(m, sa, ka) <= 500_000,
    ensures
        m * pow2(kb) >= 2 * (sa * 1_000_000 - excess(m, sa, ka)),
        kb > ka + 1 ==> m * pow2(kb) >= 4 * (sa * 1_000_000 - excess(m, sa, ka)),
{
    lemma_pow2_unfold((ka + 1) as nat);
    lemma_pow2_unfold((ka + 2) as nat);
    if ka + 1 < kb {
        lemma_pow2_strictly_increases((ka + 1) as nat, kb);
    }
    if ka + 2 < kb {
        lemma_pow2_strictly_increases((ka + 2) as nat, kb);
    }
    let da = pow2(ka) as int;
    let db = pow2(kb) as int;
    assert(db >= 2 * da);
    assert(m * db >= 2 * (m * da)) by (nonlinear_arith)
        requires
            db >= 2 * da,
            0 < m,
    ;
    if kb > ka + 1 {
        assert(db >= 4 * da);
        assert(m * db >= 4 * (m * da)) by (nonlinear_arith)
            requires
                db >= 4 * da,
                0 < m,
        ;
    }
}

/// No number is written at two scales.
proof fn lemma_written_at_one_scale(number: i64, a: u64, b: u64)
    requires
        number != 0,
        is_written_as(number, a),
        is_written_as(number, b),
        scale_of(a) < scale_of(b),
    ensures
        scale_of(a) == scale_of(b),
{
    let m = magnitude_of(number);
    let ka = scale_of(a) as nat;
    let kb = scale_of(b) as nat;
    let sa = significand_of(a);
    let sb = significand_of(b);
    lemma_next_scale_is_beyond(m, sa, ka, kb);
    let ga = excess(m, sa, ka);
    let gb = excess(m, sb, kb);
    assert(sb <= 0x20_0000_0000_0000 - 1);
    assert(gb == sb * 1_000_000 - m * pow2(kb));
    if kb > ka + 1 {
        assert(gb < -500_000);
    } else if fraction_of(a) != 0 {
        assert(sa >= 0x10_0000_0000_0000 + 1);
        assert(gb < -500_000);
    } else {
        assert(ga <= 250_000);
        assert(gb <= -500_000);
        assert(sb == 0x20_0000_0000_0000 - 1);
    }
}

/// A fixed-point number is written as one double only.
pub proof fn lemma_written_form_is_unique(number: i64, a: u64, b: u64)
    requires
        is_written_as(number, a),
        is_written_as(number, b),
    ensures
        a == b,
{
    if number != 0 {
        let m = magnitude_of(number);
        if scale_of(a) < scale_of(b) {
            lemma_written_at_one_scale(number, a, b);
        } else if scale_of(b) < scale_of(a) {
            lemma_written_at_one_scale(number, b, a);
        }
        let k = scale_of(a) as nat;
        let sa = significand_of(a);
        let sb = significand_of(b);
        assert(exponent_of(a) == exponent_of(b));
        assert(excess(m, sa, k) - excess(m, sb, k) == (sa - sb) * 1_000_000) by (nonlinear_arith)
            requires
                excess(m, sa, k) == sa * 1_000_000 - m * pow2(k),
                excess(m, sb, k) == sb * 1_000_000 - m * pow2(k),
        ;
        if sa < sb {
            assert(sb == sa + 1);
        } else if sb < sa {
            assert(sa == sb + 1);
        }
        assert(sa == sb);
        assert(fraction_of(a) == fraction_of(b));
        assert(is_negative(a) == is_negative(b));
    }
}

/// Writes a fixed-point number of millionths as a double.
pub fn bits_from_micro(number: i64) -> (bits: u64)
    ensures
        is_written_as(number, bits),
{
    if number == 0 {
        return 0;
    }
    let negative: bool = number < 0;
    let magnitude: u128 = if negative {
        let wide: i128 = number as i128;
        (-wide) as u128
    } else {
        number as u128
    };
    let mut scaled: u128 = magnitude;
    let mut scale: u64 = 0;
    proof {
        lemma2_to64();
        lemma_pow2_adds(64, 8);
    }
    while scaled / 1_000_000 < 0x10_0000_0000_0000
        invariant
            0 < magnitude <= 0x8000_0000_0000_0000,
            scaled == magnitude * pow2(scale as nat),
            scaled / 1_000_000 < 0x20_0000_0000_0000,
            pow2(scale as nat) <= scaled,
            scale <= 72,
            pow2(72) == 0x1_00_0000_0000_0000_0000,
        decreases 0x20_0000_0000_0000 * 1_000_000 - scaled,
    {
        proof {
            lemma_pow2_pos(scale as nat);
            lemma_pow2_unfold((scale + 1) as nat);
            assert(magnitude * (2 * pow2(scale as nat)) == 2 * (magnitude * pow2(scale as nat)))
                by (nonlinear_arith);
        }
        scaled = scaled * 2;
        scale = scale + 1;
    }
    let whole: u64 = (scaled / 1_000_000) as u64;
    let rest: u64 = (scaled % 1_000_000) as u64;
    let up: bool = rest > 500_000 || (rest == 500_000 && whole % 2 == 1);
    let rounded: u64 = if up {
        whole + 1
    } else {
        whole
    };
    let carried: bool = rounded == 0x20_0000_0000_0000;
    let significand: u64 = if carried {
        FRACTION_SPAN
    } else {
        rounded
    };
    let exponent: u64 = if carried {
        1076 - scale
    } else {
        1075 - scale
    };
    let sign: u64 = if negative {
        SIGN_BIT
    } else {
        0
    };
    let bits: u64 = sign + exponent * FRACTION_SPAN + (significand - FRACTION_SPAN);
    proof {
        let fraction = significand - FRACTION_SPAN;
        assert(scale >= 1);
        assert(bits as int / FRACTION_SPAN as int == (sign / FRACTION_SPAN) + exponent);
        assert(exponent_of(bits) == exponent);
        assert(fraction_of(bits) == fraction);
        assert(significand_of(bits) == significand);
        if carried {
            assert(scale_of(bits) == scale - 1);
            lemma_pow2_unfold(scale as nat);
            let half = pow2((scale - 1) as nat) as int;
            assert(magnitude * (2 * half) == 2 * (magnitude * half)) by (nonlinear_arith);
            assert(2 * excess(magnitude as int, significand as int, (scale - 1) as nat)
                == 0x20_0000_0000_0000 * 1_000_000 - scaled);
        } else {
            assert(scale_of(bits) == scale);
            assert(excess(magnitude as int, significand as int, scale as nat) == rounded
                * 1_000_000 - scaled);
        }
    }
    bits
}

/// A fixed-point number that was written as a double reads back as itself,
/// as long as its magnitude is no more than two to the fifty-first
/// millionths.
pub proof fn lemma_written_number_reads_back(number: i64, bits: u64)
    requires
        is_written_as(number, bits),
        magnitude_of(number) <= 0x8_0000_0000_0000,
    ensures
        spec_micro_from_bits(bits) == Some(number),
{
    if number == 0 {
        lemma2_to64();
        lemma_pow2_pos(1074);
        let d = pow2(1074) as int;
        assert(nearest_quotient(0, d) == 0) by {
            lemma_basic_div(d, 2 * d);
        }
    } else {
        let a = magnitude_of(number);
        let s = significand_of(bits);
        let d = pow2(scale_of(bits) as nat) as int;
        let gap = excess(a, s, scale_of(bits) as nat);
        lemma_pow2_pos(scale_of(bits) as nat);
        assert(s >= 0x10_0000_0000_0000);
        assert(d > 1_000_000) by (nonlinear_arith)
            requires
                0 < a <= 0x8_0000_0000_0000,
                s >= 0x10_0000_0000_0000,
                s * 1_000_000 - a * d <= 500_000,
                d > 0,
        ;
        let x = 2 * (s * 1_000_000) + d;
        let r = x - a * (2 * d);
        assert(0 <= r < 2 * d) by (nonlinear_arith)
            requires
                r == 2 * (s * 1_000_000) + d - a * (2 * d),
                -500_000 <= s * 1_000_000 - a * d <= 500_000,
                d > 1_000_000,
        ;
        lemma_fundamental_div_mod_converse(x, 2 * d, a, r);
        assert(micro_magnitude(bits) == a);
    }
}

} // verus!
