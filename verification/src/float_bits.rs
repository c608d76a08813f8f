//! Exact comparisons on IEEE-754 binary32 readings carried as their bit pattern.
//!
//! Sensor readings arrive as `f32`. The library keeps them as the raw 32-bit
//! pattern (what `f32::to_bits` yields) and compares them against integer
//! thresholds exactly, the way the hardware comparison `x <= t as f32` does for
//! every integer `t` that binary32 represents exactly.
use vstd::arithmetic::mul::lemma_mul_is_associative;
use vstd::arithmetic::power2::{
    lemma_pow2_adds, lemma_pow2_pos, lemma_pow2_strictly_increases, lemma_pow2_unfold, pow2,
};
use vstd::prelude::*;

verus! {

/// Sign bit of a binary32 pattern (1 = negative).
pub open spec fn sign_bit(b: u32) -> nat {
    (b / 0x8000_0000) as nat
}

/// Biased exponent field of a binary32 pattern (0..=255).
pub open spec fn exponent_field(b: u32) -> nat {
    ((b / 0x80_0000) % 0x100) as nat
}

/// Fraction field of a binary32 pattern (23 bits).
pub open spec fn fraction_field(b: u32) -> nat {
    (b % 0x80_0000) as nat
}

/// The pattern encodes a NaN.
pub open spec fn is_nan_bits(b: u32) -> bool {
    exponent_field(b) == 255 && fraction_field(b) != 0
}

/// The pattern encodes a finite number (zero, subnormal or normal).
pub open spec fn is_finite_bits(b: u32) -> bool {
    exponent_field(b) != 255
}

/// Integer significand of a finite pattern: the fraction, plus the hidden bit
/// for normal numbers.
pub open spec fn significand(b: u32) -> nat {
    if exponent_field(b) == 0 {
        fraction_field(b)
    } else {
        fraction_field(b) + 0x80_0000
    }
}

/// Effective exponent of a finite pattern (subnormals use 1).
pub open spec fn effective_exponent(b: u32) -> nat {
    if exponent_field(b) == 0 {
        1
    } else {
        exponent_field(b)
    }
}

/// Magnitude of a finite pattern scaled by 2^150, so that it is an integer:
/// the encoded number's absolute value is `scaled_magnitude(b) / 2^150`.
pub open spec fn scaled_magnitude(b: u32) -> nat {
    significand(b) * pow2(effective_exponent(b))
}

/// The encoded number, scaled by 2^150, with its sign (finite patterns only).
pub open spec fn scaled_value(b: u32) -> int {
    if sign_bit(b) == 1 {
        -scaled_magnitude(b)
    } else {
        scaled_magnitude(b) as int
    }
}

/// The IEEE comparison `x <= t` between the number encoded by `b` and the
/// integer `t`: false for NaN, true for negative infinity, false for positive
/// infinity, and the exact comparison of values otherwise.
pub open spec fn f32_le_int(b: u32, t: nat) -> bool {
    if is_nan_bits(b) {
        false
    } else if !is_finite_bits(b) {
        sign_bit(b) == 1
    } else {
        scaled_value(b) <= t * pow2(150)
    }
}

/// Multiplying both sides by the same positive number keeps the order.
proof fn lemma_scaled_le(a: nat, b: nat, c: nat)
    requires
        c > 0,
    ensures
        (a * c <= b * c) == (a <= b),
{
    assert((a * c <= b * c) == (a <= b)) by (nonlinear_arith)
        requires
            c > 0,
    ;
}

/// Computes 2^k for a small k.
fn pow2_u64(k: u32) -> (p: u64)
    requires
        k < 64,
    ensures
        p == pow2(k as nat),
{
    let mut p: u64 = 1;
    let mut i: u32 = 0;
    proof {
        vstd::arithmetic::power2::lemma2_to64();
    }
    while i < k
        invariant
            i <= k,
            k < 64,
            p == pow2(i as nat),
        decreases k - i,
    {
        proof {
            lemma_pow2_unfold((i + 1) as nat);
            lemma_pow2_strictly_increases((i + 1) as nat, 64);
            vstd::arithmetic::power2::lemma2_to64();
        }
        p = p * 2;
        i = i + 1;
    }
    p
}

/// Exact IEEE comparison `x <= t` of the binary32 number with bit pattern
/// `bits` against a small non-negative integer threshold.
pub fn bits_le_int(bits: u32, t: u32) -> (r: bool)
    requires
        t <= 1000,
    ensures
        r == f32_le_int(bits, t as nat),
{
    let sign = bits / 0x8000_0000;
    let exp = (bits / 0x80_0000) % 0x100;
    let frac = bits % 0x80_0000;
    if exp == 255 {
        return frac == 0 && sign == 1;
    }
    if sign == 1 {
        proof {
            lemma_pow2_pos(150);
            assert(t * pow2(150) >= 0) by (nonlinear_arith)
                requires
                    pow2(150) > 0,
            ;
        }
        return true;
    }
    let m: u64 = if exp == 0 {
        frac as u64
    } else {
        frac as u64 + 0x80_0000
    };
    let ee: u32 = if exp == 0 {
        1
    } else {
        exp
    };
    assert(m == significand(bits));
    assert(ee == effective_exponent(bits));
    proof {
        lemma_pow2_pos(150);
        lemma_pow2_pos(ee as nat);
    }
    if m == 0 {
        proof {
            assert(scaled_magnitude(bits) == 0);
            assert(t * pow2(150) >= 0) by (nonlinear_arith)
                requires
                    pow2(150) > 0,
            ;
        }
        return true;
    }
    if ee >= 150 {
        let k: u32 = ee - 150;
        proof {
            lemma_pow2_adds(k as nat, 150);
            lemma_mul_is_associative(m as int, pow2(k as nat) as int, pow2(150) as int);
            lemma_scaled_le((m * pow2(k as nat)) as nat, t as nat, pow2(150));
        }
        // scaled value > t * 2^150  iff  m * 2^k > t
        if k >= 10 {
            proof {
                vstd::arithmetic::power2::lemma2_to64();
                if k > 10 {
                    lemma_pow2_strictly_increases(10, k as nat);
                }
                assert(m * pow2(k as nat) >= 1 * 1024) by (nonlinear_arith)
                    requires
                        m >= 1,
                        pow2(k as nat) >= 1024,
                ;
            }
            return false;
        }
        let p = pow2_u64(k);
        proof {
            vstd::arithmetic::power2::lemma2_to64();
            if k < 10 {
                lemma_pow2_strictly_increases(k as nat, 10);
            }
            assert(m * p <= 0x100_0000 * 1024) by (nonlinear_arith)
                requires
                    m < 0x100_0000,
                    p <= 1024,
            ;
        }
        m * p <= t as u64
    } else {
        let k: u32 = 150 - ee;
        proof {
            lemma_pow2_adds(k as nat, ee as nat);
            lemma_mul_is_associative(t as int, pow2(k as nat) as int, pow2(ee as nat) as int);
            lemma_scaled_le(m as nat, (t * pow2(k as nat)) as nat, pow2(ee as nat));
        }
        // scaled value <= t * 2^150  iff  m <= t * 2^k
        if t == 0 {
            return false;
        }
        if k >= 24 {
            proof {
                vstd::arithmetic::power2::lemma2_to64();
                if k > 24 {
                    lemma_pow2_strictly_increases(24, k as nat);
                }
                assert(t * pow2(k as nat) >= 1 * 0x100_0000) by (nonlinear_arith)
                    requires
                        t >= 1,
                        pow2(k as nat) >= 0x100_0000,
                ;
            }
            return true;
        }
        let p = pow2_u64(k);
        proof {
            vstd::arithmetic::power2::lemma2_to64();
            lemma_pow2_strictly_increases(k as nat, 24);
            assert(t * p <= 1000 * 0x100_0000) by (nonlinear_arith)
                requires
                    t <= 1000,
                    p <= 0x100_0000,
            ;
        }
        m <= (t as u64) * p
    }
}

/// Order of the numbers encoded by two non-NaN patterns: negative infinity is
/// below and positive infinity above every finite number.
pub open spec fn bits_value_le(a: u32, b: u32) -> bool {
    if !is_finite_bits(a) && sign_bit(a) == 1 {
        true
    } else if !is_finite_bits(b) && sign_bit(b) == 0 {
        true
    } else if !is_finite_bits(a) || !is_finite_bits(b) {
        false
    } else {
        scaled_value(a) <= scaled_value(b)
    }
}

/// A number below or equal to one that does not exceed `t` does not exceed `t`
/// either.
pub proof fn lemma_le_int_downward(a: u32, b: u32, t: nat)
    requires
        !is_nan_bits(a),
        !is_nan_bits(b),
        bits_value_le(a, b),
        f32_le_int(b, t),
    ensures
        f32_le_int(a, t),
{
}

/// A number that does not exceed `t1` does not exceed any larger `t2`.
pub proof fn lemma_le_int_upward(b: u32, t1: nat, t2: nat)
    requires
        f32_le_int(b, t1),
        t1 <= t2,
    ensures
        f32_le_int(b, t2),
{
    vstd::arithmetic::power2::lemma_pow2_pos(150);
    vstd::arithmetic::mul::lemma_mul_inequality(t1 as int, t2 as int, pow2(150) as int);
}

} // verus!
