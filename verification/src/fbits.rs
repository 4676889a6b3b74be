//! Single-precision scalars carried as their bit patterns.
//!
//! The rendering core never branches on the numeric value of a coordinate,
//! so positions, texture coordinates and colors travel through the library
//! as raw `u32` bit patterns of IEEE 754 single-precision values.  The
//! orderings and sign tests below are plain integer logic on those patterns
//! and are fully verified; rounding arithmetic (add, subtract, multiply,
//! divide, conversion from integers) goes through trusted wrappers around
//! a software IEEE 754 implementation, and each wrapper's result is named
//! by an uninterpreted function.

use vstd::prelude::*;

use rustc_apfloat::Float;
use rustc_apfloat::ieee::Single;

verus! {

/// Bit pattern of `1.0f32`.
pub const ONE_BITS: u32 = 0x3F80_0000;
/// Bit pattern of `2.0f32`.
pub const TWO_BITS: u32 = 0x4000_0000;
/// Bit pattern of `20.0f32`.
pub const TWENTY_BITS: u32 = 0x41A0_0000;
/// Bit pattern of `f32::consts::TAU` (one full turn in radians).
pub const TAU_BITS: u32 = 0x40C9_0FDB;
/// Bit pattern of `+infinity`; every finite non-negative value lies below it.
pub const INF_BITS: u32 = 0x7F80_0000;
/// Sign bit of a single-precision value.
pub const SIGN_BIT: u32 = 0x8000_0000;

/// Magnitude of a bit pattern: the pattern with its sign bit cleared.
pub open spec fn f32_magnitude(bits: u32) -> u32 {
    if bits >= SIGN_BIT {
        (bits - SIGN_BIT) as u32
    } else {
        bits
    }
}

/// Whether the pattern encodes a NaN (all-ones exponent, non-zero mantissa).
pub open spec fn f32_is_nan(bits: u32) -> bool {
    f32_magnitude(bits) > INF_BITS
}

/// Whether the pattern encodes a zero (either sign).
pub open spec fn f32_is_zero(bits: u32) -> bool {
    bits == 0 || bits == SIGN_BIT
}

/// The position of a non-NaN value on the real line, as an integer key:
/// magnitude for positive patterns, negated magnitude for negative ones.
/// Two patterns compare (`<`, `==` as floats) exactly as their keys do.
pub open spec fn f32_key(bits: u32) -> int {
    if bits >= SIGN_BIT {
        -(f32_magnitude(bits) as int)
    } else {
        bits as int
    }
}

/// IEEE 754 `a > 0.0`.
pub open spec fn f32_gt_zero(bits: u32) -> bool {
    0 < bits <= INF_BITS
}

/// Negation: the pattern with its sign bit flipped.
pub open spec fn f32_neg(bits: u32) -> u32 {
    if bits >= SIGN_BIT {
        (bits - SIGN_BIT) as u32
    } else {
        (bits + SIGN_BIT) as u32
    }
}

/// The minimum in the sense of `f32::min`: if one operand is NaN the other
/// is returned; otherwise the smaller value, the first on a tie.
pub open spec fn f32_min_spec(a: u32, b: u32) -> u32 {
    if f32_is_nan(a) {
        b
    } else if f32_is_nan(b) {
        a
    } else if f32_key(b) < f32_key(a) {
        b
    } else {
        a
    }
}

/// Whether the pattern is neither NaN nor negative: `a + 0.0` returns
/// exactly `a` for such patterns.
pub open spec fn f32_nonneg(bits: u32) -> bool {
    bits <= INF_BITS
}

pub fn f32_magnitude_x(bits: u32) -> (r: u32)
    ensures
        r == f32_magnitude(bits),
{
    if bits >= SIGN_BIT {
        bits - SIGN_BIT
    } else {
        bits
    }
}

pub fn f32_is_nan_x(bits: u32) -> (r: bool)
    ensures
        r == f32_is_nan(bits),
{
    f32_magnitude_x(bits) > INF_BITS
}

pub fn f32_is_zero_x(bits: u32) -> (r: bool)
    ensures
        r == f32_is_zero(bits),
{
    bits == 0 || bits == SIGN_BIT
}

pub fn f32_gt_zero_x(bits: u32) -> (r: bool)
    ensures
        r == f32_gt_zero(bits),
{
    0 < bits && bits <= INF_BITS
}

pub fn f32_neg_x(bits: u32) -> (r: u32)
    ensures
        r == f32_neg(bits),
{
    if bits >= SIGN_BIT {
        bits - SIGN_BIT
    } else {
        bits + SIGN_BIT
    }
}

pub fn f32_min_x(a: u32, b: u32) -> (r: u32)
    ensures
        r == f32_min_spec(a, b),
{
    if f32_is_nan_x(a) {
        b
    } else if f32_is_nan_x(b) {
        a
    } else {
        let ka_neg: bool = a >= SIGN_BIT;
        let kb_neg: bool = b >= SIGN_BIT;
        let ma: u32 = f32_magnitude_x(a);
        let mb: u32 = f32_magnitude_x(b);
        if ka_neg && kb_neg {
            if mb > ma {
                b
            } else {
                a
            }
        } else if ka_neg {
            a
        } else if kb_neg {
            if mb == 0 && a == 0 {
                a
            } else {
                b
            }
        } else {
            if b < a {
                b
            } else {
                a
            }
        }
    }
}

/// The sum `a + b` computed by IEEE 754 single-precision addition.
pub uninterp spec fn fadd(a: u32, b: u32) -> u32;

/// The difference `a - b` computed by IEEE 754 single-precision subtraction.
pub uninterp spec fn fsub(a: u32, b: u32) -> u32;

/// The product `a * b` computed by IEEE 754 single-precision multiplication.
pub uninterp spec fn fmul(a: u32, b: u32) -> u32;

/// The quotient `a / b` computed by IEEE 754 single-precision division.
pub uninterp spec fn fdiv(a: u32, b: u32) -> u32;

/// The single-precision value nearest to the integer `n`.
pub uninterp spec fn f32_of_u32(n: u32) -> u32;

/// Relies on rustc_apfloat's `Single` addition (`impl Add for IeeeFloat`):
/// IEEE 754 binary32 addition, round to nearest even, a deterministic
/// function of the operand bits.  Adding positive zero to a value that is
/// neither NaN nor negative returns that value bit for bit.
#[verifier::external_body]
pub fn fadd_x(a: u32, b: u32) -> (r: u32)
    ensures
        r == fadd(a, b),
        b == 0 && f32_nonneg(a) ==> r == a,
        a == 0 && f32_nonneg(b) ==> r == b,
{
    let x = Single::from_bits(a as u128);
    let y = Single::from_bits(b as u128);
    (x + y).value.to_bits() as u32
}

/// Relies on rustc_apfloat's `Single` subtraction (`impl Sub for IeeeFloat`):
/// IEEE 754 binary32 subtraction, round to nearest even, a deterministic
/// function of the operand bits.
#[verifier::external_body]
pub fn fsub_x(a: u32, b: u32) -> (r: u32)
    ensures
        r == fsub(a, b),
{
    let x = Single::from_bits(a as u128);
    let y = Single::from_bits(b as u128);
    (x - y).value.to_bits() as u32
}

/// Relies on rustc_apfloat's `Single` multiplication (`impl Mul for
/// IeeeFloat`): IEEE 754 binary32 multiplication, round to nearest even, a
/// deterministic function of the operand bits.
#[verifier::external_body]
pub fn fmul_x(a: u32, b: u32) -> (r: u32)
    ensures
        r == fmul(a, b),
{
    let x = Single::from_bits(a as u128);
    let y = Single::from_bits(b as u128);
    (x * y).value.to_bits() as u32
}

/// Relies on rustc_apfloat's `Single` division (`impl Div for IeeeFloat`):
/// IEEE 754 binary32 division, round to nearest even, a deterministic
/// function of the operand bits.
#[verifier::external_body]
pub fn fdiv_x(a: u32, b: u32) -> (r: u32)
    ensures
        r == fdiv(a, b),
{
    let x = Single::from_bits(a as u128);
    let y = Single::from_bits(b as u128);
    (x / y).value.to_bits() as u32
}

/// Relies on rustc_apfloat's `Single::from_u128`: conversion of an unsigned
/// integer to the nearest binary32 value, a deterministic function of the
/// integer.  Every `u32` converts to a finite non-negative value, and zero
/// converts to positive zero.
#[verifier::external_body]
pub fn f32_of_u32_x(n: u32) -> (r: u32)
    ensures
        r == f32_of_u32(n),
        r < INF_BITS,
        n == 0 ==> r == 0,
{
    Single::from_u128(n as u128).value.to_bits() as u32
}

} // verus!
