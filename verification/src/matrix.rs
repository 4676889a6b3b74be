//! Column-major 4x4 matrices of single-precision bit patterns.
//!
//! The batcher's projection matrix is built and combined here: an
//! orthographic projection for the visible surface or a render target, and
//! affine translation / scale factors multiplied onto it.  The arithmetic
//! is IEEE 754 single precision through the named operations of
//! [`crate::fbits`].

use vstd::prelude::*;

use crate::fbits::ONE_BITS;
use crate::fbits::TWO_BITS;
use crate::fbits::f32_neg;
use crate::fbits::f32_neg_x;
use crate::fbits::fadd;
use crate::fbits::fadd_x;
use crate::fbits::fdiv;
use crate::fbits::fdiv_x;
use crate::fbits::fmul;
use crate::fbits::fmul_x;
use crate::fbits::fsub;
use crate::fbits::fsub_x;

verus! {

/// The identity matrix.
pub open spec fn identity_matrix() -> Seq<u32> {
    seq![
        ONE_BITS,
        0u32,
        0u32,
        0u32,
        0u32,
        ONE_BITS,
        0u32,
        0u32,
        0u32,
        0u32,
        ONE_BITS,
        0u32,
        0u32,
        0u32,
        0u32,
        ONE_BITS,
    ]
}

/// The orthographic projection onto `[left, right] x [bottom, top]` with
/// depth range `[near, far]`, mapping to OpenGL normalized device
/// coordinates.
pub open spec fn ortho_matrix(
    left: u32,
    right: u32,
    bottom: u32,
    top: u32,
    near: u32,
    far: u32,
) -> Seq<u32> {
    let sx = fdiv(TWO_BITS, fsub(right, left));
    let sy = fdiv(TWO_BITS, fsub(top, bottom));
    let sz = fdiv(f32_neg(TWO_BITS), fsub(far, near));
    let tx = fdiv(f32_neg(fadd(right, left)), fsub(right, left));
    let ty = fdiv(f32_neg(fadd(top, bottom)), fsub(top, bottom));
    let tz = fdiv(f32_neg(fadd(far, near)), fsub(far, near));
    seq![
        sx,
        0u32,
        0u32,
        0u32,
        0u32,
        sy,
        0u32,
        0u32,
        0u32,
        0u32,
        sz,
        0u32,
        tx,
        ty,
        tz,
        ONE_BITS,
    ]
}

/// The affine matrix translating by `(x, y, 0)`.
pub open spec fn translation_matrix(x: u32, y: u32) -> Seq<u32> {
    seq![
        ONE_BITS,
        0u32,
        0u32,
        0u32,
        0u32,
        ONE_BITS,
        0u32,
        0u32,
        0u32,
        0u32,
        ONE_BITS,
        0u32,
        x,
        y,
        0u32,
        ONE_BITS,
    ]
}

/// The affine matrix scaling by `(x, y, 1)`.
pub open spec fn scale_matrix(x: u32, y: u32) -> Seq<u32> {
    seq![
        x,
        0u32,
        0u32,
        0u32,
        0u32,
        y,
        0u32,
        0u32,
        0u32,
        0u32,
        ONE_BITS,
        0u32,
        0u32,
        0u32,
        0u32,
        ONE_BITS,
    ]
}

/// One entry of the matrix product `a * b` at column `c`, row `r`: the dot
/// product of `a`'s row `r` with `b`'s column `c`, summed left to right.
pub open spec fn mat_mul_entry(a: Seq<u32>, b: Seq<u32>, c: int, r: int) -> u32 {
    fadd(
        fadd(
            fadd(fmul(a[0 * 4 + r], b[c * 4 + 0]), fmul(a[1 * 4 + r], b[c * 4 + 1])),
            fmul(a[2 * 4 + r], b[c * 4 + 2]),
        ),
        fmul(a[3 * 4 + r], b[c * 4 + 3]),
    )
}

/// The matrix product `a * b` in column-major order.
pub open spec fn mat_mul(a: Seq<u32>, b: Seq<u32>) -> Seq<u32> {
    Seq::new(16, |i: int| mat_mul_entry(a, b, i / 4, i % 4))
}

/// Builds the identity matrix.
pub fn identity_matrix_x() -> (r: [u32; 16])
    ensures
        r@ == identity_matrix(),
{
    let r: [u32; 16] = [
        ONE_BITS,
        0u32,
        0u32,
        0u32,
        0u32,
        ONE_BITS,
        0u32,
        0u32,
        0u32,
        0u32,
        ONE_BITS,
        0u32,
        0u32,
        0u32,
        0u32,
        ONE_BITS,
    ];
    proof {
        assert(r@ =~= identity_matrix());
    }
    r
}

/// Builds the orthographic projection matrix.
pub fn ortho_matrix_x(left: u32, right: u32, bottom: u32, top: u32, near: u32, far: u32) -> (r: [u32; 16])
    ensures
        r@ == ortho_matrix(left, right, bottom, top, near, far),
{
    let w = fsub_x(right, left);
    let h = fsub_x(top, bottom);
    let d = fsub_x(far, near);
    let sx = fdiv_x(TWO_BITS, w);
    let sy = fdiv_x(TWO_BITS, h);
    let sz = fdiv_x(f32_neg_x(TWO_BITS), d);
    let tx = fdiv_x(f32_neg_x(fadd_x(right, left)), w);
    let ty = fdiv_x(f32_neg_x(fadd_x(top, bottom)), h);
    let tz = fdiv_x(f32_neg_x(fadd_x(far, near)), d);
    let r: [u32; 16] = [
        sx,
        0u32,
        0u32,
        0u32,
        0u32,
        sy,
        0u32,
        0u32,
        0u32,
        0u32,
        sz,
        0u32,
        tx,
        ty,
        tz,
        ONE_BITS,
    ];
    proof {
        assert(r@ =~= ortho_matrix(left, right, bottom, top, near, far));
    }
    r
}

/// Builds the translation matrix.
pub fn translation_matrix_x(x: u32, y: u32) -> (r: [u32; 16])
    ensures
        r@ == translation_matrix(x, y),
{
    let r: [u32; 16] = [
        ONE_BITS,
        0u32,
        0u32,
        0u32,
        0u32,
        ONE_BITS,
        0u32,
        0u32,
        0u32,
        0u32,
        ONE_BITS,
        0u32,
        x,
        y,
        0u32,
        ONE_BITS,
    ];
    proof {
        assert(r@ =~= translation_matrix(x, y));
    }
    r
}

/// Builds the scale matrix.
pub fn scale_matrix_x(x: u32, y: u32) -> (r: [u32; 16])
    ensures
        r@ == scale_matrix(x, y),
{
    let r: [u32; 16] = [
        x,
        0u32,
        0u32,
        0u32,
        0u32,
        y,
        0u32,
        0u32,
        0u32,
        0u32,
        ONE_BITS,
        0u32,
        0u32,
        0u32,
        0u32,
        ONE_BITS,
    ];
    proof {
        assert(r@ =~= scale_matrix(x, y));
    }
    r
}

/// Multiplies two matrices.
pub fn mat_mul_x(a: &[u32; 16], b: &[u32; 16]) -> (r: [u32; 16])
    ensures
        r@ == mat_mul(a@, b@),
{
    let mut r: [u32; 16] = [0u32; 16];
    let mut c: usize = 0;
    while c < 4
        invariant
            c <= 4,
            forall|i: int| 0 <= i < c * 4 ==> r@[i] == mat_mul(a@, b@)[i],
        decreases 4 - c,
    {
        let mut row: usize = 0;
        while row < 4
            invariant
                c < 4,
                row <= 4,
                forall|i: int| 0 <= i < c * 4 + row ==> r@[i] == mat_mul(a@, b@)[i],
            decreases 4 - row,
        {
            let e = fadd_x(
                fadd_x(
                    fadd_x(fmul_x(a[row], b[c * 4]), fmul_x(a[4 + row], b[c * 4 + 1])),
                    fmul_x(a[8 + row], b[c * 4 + 2]),
                ),
                fmul_x(a[12 + row], b[c * 4 + 3]),
            );
            r[c * 4 + row] = e;
            proof {
                assert(e == mat_mul_entry(a@, b@, c as int, row as int));
                assert((c * 4 + row) as int / 4 == c as int && (c * 4 + row) as int % 4
                    == row as int) by (nonlinear_arith)
                    requires
                        c < 4,
                        row < 4,
                ;
                assert(r@[(c * 4 + row) as int] == mat_mul(a@, b@)[(c * 4 + row) as int]);
            }
            row = row + 1;
        }
        c = c + 1;
    }
    proof {
        assert(r@ =~= mat_mul(a@, b@));
    }
    r
}

} // verus!
