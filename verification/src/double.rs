//! Double-precision numbers as their IEEE 754 bit patterns.
//!
//! A pattern has a sign bit, eleven bits of exponent and fifty-two bits of
//! fraction. Every finite double is a whole multiple of 2^-1074, so its size
//! is stated here as a natural number of such units.

use vstd::prelude::*;
use vstd::arithmetic::power2::{
    lemma2_to64, lemma2_to64_rest, lemma_pow2_adds, lemma_pow2_pos,
    lemma_pow2_strictly_increases, lemma_pow2_unfold, pow2,
};

verus! {

/// The pattern of the sign bit alone: negative zero.
pub const SIGN_BIT: u64 = 0x8000_0000_0000_0000;

/// Two to the fifty-second: the weight of the leading one that a normal
/// number's fraction leaves out.
pub const HIDDEN_BIT: u64 = 0x10_0000_0000_0000;

/// The exponent field that marks infinities and NaNs.
pub const EXPONENT_SPECIAL: u64 = 0x7FF;

/// Whether the sign bit is set.
pub open spec fn negative(bits: u64) -> bool {
    bits >= SIGN_BIT
}

/// The exponent field, bits 52 to 62.
pub open spec fn exponent(bits: u64) -> nat {
    ((bits / HIDDEN_BIT) % 0x800) as nat
}

/// The fraction field, bits 0 to 51.
pub open spec fn fraction(bits: u64) -> nat {
    (bits % HIDDEN_BIT) as nat
}

/// Neither an infinity nor a NaN.
pub open spec fn finite(bits: u64) -> bool {
    exponent(bits) < EXPONENT_SPECIAL
}

/// The absolute value of a finite double, counted in units of 2^-1074.
pub open spec fn magnitude(bits: u64) -> nat
    recommends
        finite(bits),
{
    if exponent(bits) == 0 {
        fraction(bits)
    } else {
        (HIDDEN_BIT as nat + fraction(bits)) * pow2((exponent(bits) - 1) as nat)
    }
}

/// Whether the double compares equal to zero: positive or negative zero.
pub open spec fn zero(bits: u64) -> bool {
    exponent(bits) == 0 && fraction(bits) == 0
}

/// Exactly the two zeros are finite and of magnitude zero.
pub proof fn lemma_zero_is_magnitude_zero(bits: u64)
    ensures
        zero(bits) <==> finite(bits) && magnitude(bits) == 0,
        zero(bits) <==> bits == 0 || bits == SIGN_BIT,
{
    if exponent(bits) != 0 {
        let scale = pow2((exponent(bits) - 1) as nat);
        let mantissa = HIDDEN_BIT as nat + fraction(bits);
        lemma_pow2_pos((exponent(bits) - 1) as nat);
        assert(mantissa * scale > 0) by (nonlinear_arith)
            requires
                mantissa > 0,
                scale > 0,
        ;
    }
}

/// A pattern is its three fields put together.
proof fn lemma_fields(bits: u64)
    ensures
        bits == (if negative(bits) {
            SIGN_BIT as int
        } else {
            0
        }) + exponent(bits) * HIDDEN_BIT + fraction(bits),
        exponent(bits) < 0x800,
        fraction(bits) < HIDDEN_BIT,
{
}

/// A normal number with the smaller exponent field is the smaller number.
proof fn lemma_exponent_orders(low: u64, high: u64)
    requires
        0 < exponent(low) < exponent(high),
    ensures
        magnitude(low) < magnitude(high),
{
    let gap = (exponent(high) - exponent(low)) as nat;
    let unit = pow2((exponent(low) - 1) as nat);
    let step = pow2(gap);
    let small = HIDDEN_BIT as nat + fraction(low);
    let large = HIDDEN_BIT as nat + fraction(high);
    lemma_pow2_adds(gap, (exponent(low) - 1) as nat);
    lemma_pow2_pos((exponent(low) - 1) as nat);
    lemma_pow2_unfold(gap);
    lemma_pow2_pos((gap - 1) as nat);
    assert(small * unit < large * (step * unit)) by (nonlinear_arith)
        requires
            small < 2 * HIDDEN_BIT,
            large >= HIDDEN_BIT,
            step >= 2,
            unit > 0,
    ;
}

/// Two finite doubles of one sign and one magnitude are the same pattern:
/// sign and magnitude tell the bits.
pub proof fn lemma_magnitude_injective(a: u64, b: u64)
    requires
        finite(a),
        finite(b),
        negative(a) == negative(b),
        magnitude(a) == magnitude(b),
    ensures
        a == b,
{
    lemma_fields(a);
    lemma_fields(b);
    if exponent(a) == 0 && exponent(b) == 0 {
    } else if exponent(a) == 0 || exponent(b) == 0 {
        let normal = if exponent(a) == 0 {
            b
        } else {
            a
        };
        let unit = pow2((exponent(normal) - 1) as nat);
        let mantissa = HIDDEN_BIT as nat + fraction(normal);
        lemma_pow2_pos((exponent(normal) - 1) as nat);
        assert(mantissa * unit >= HIDDEN_BIT) by (nonlinear_arith)
            requires
                mantissa >= HIDDEN_BIT,
                unit >= 1,
        ;
    } else if exponent(a) < exponent(b) {
        lemma_exponent_orders(a, b);
    } else if exponent(b) < exponent(a) {
        lemma_exponent_orders(b, a);
    } else {
        let unit = pow2((exponent(a) - 1) as nat);
        let left = HIDDEN_BIT as nat + fraction(a);
        let right = HIDDEN_BIT as nat + fraction(b);
        lemma_pow2_pos((exponent(a) - 1) as nat);
        assert(left == right) by (nonlinear_arith)
            requires
                left * unit == right * unit,
                unit > 0,
        ;
    }
}

/// Tells whether the double with these bits compares equal to zero.
pub fn is_zero(bits: u64) -> (yes: bool)
    ensures
        yes == zero(bits),
{
    proof {
        lemma_zero_is_magnitude_zero(bits);
    }
    bits == 0 || bits == SIGN_BIT
}

/// The bits of the double that is exactly `n` times one and a half.
pub fn three_halves(n: u32) -> (bits: u64)
    ensures
        !negative(bits),
        finite(bits),
        2 * magnitude(bits) == 3 * n * pow2(1074),
{
    if n == 0 {
        assert(3 * n * pow2(1074) == 0) by (nonlinear_arith)
            requires
                n == 0,
        ;
        return 0;
    }
    let ghost target: nat = (3 * n) as nat;
    let mut mantissa: u64 = 3 * (n as u64);
    let mut biased: u64 = 1074;
    proof {
        lemma2_to64();
        lemma2_to64_rest();
    }
    while mantissa < HIDDEN_BIT
        invariant
            0 < mantissa < 2 * HIDDEN_BIT,
            1 <= biased <= 1074,
            pow2((1074 - biased) as nat) <= mantissa,
            mantissa * pow2((biased - 1) as nat) == target * pow2(1073),
            pow2(52) == HIDDEN_BIT,
        decreases biased,
    {
        proof {
            let shifts = (1074 - biased) as nat;
            assert(shifts < 52) by {
                if shifts > 52 {
                    lemma_pow2_strictly_increases(52, shifts);
                }
            }
            lemma_pow2_unfold((shifts + 1) as nat);
            lemma_pow2_unfold((biased - 1) as nat);
            let rest = pow2((biased - 2) as nat);
            assert((2 * mantissa) * rest == mantissa * (2 * rest)) by (nonlinear_arith);
        }
        mantissa = mantissa * 2;
        biased = biased - 1;
    }
    let bits: u64 = biased * HIDDEN_BIT + (mantissa - HIDDEN_BIT);
    proof {
        lemma_pow2_unfold(1074);
        assert(2 * (target * pow2(1073)) == target * (2 * pow2(1073))) by (nonlinear_arith);
    }
    bits
}

} // verus!
