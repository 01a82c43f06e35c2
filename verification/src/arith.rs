//! The four rounding arithmetic operations of the kernel. Their results are
//! not pinned down by a short formula, so each is named by an uninterpreted
//! spec function and supplied by rustc_apfloat, a software implementation of
//! IEEE-754 binary32 arithmetic rounding to nearest with ties to even; the
//! wrappers also state the few exact identities of that arithmetic which the
//! rest of the crate builds on.

use rustc_apfloat::Float;
use rustc_apfloat::ieee::Single;
use vstd::prelude::*;

verus! {

use crate::ieee::POS_ZERO;
use crate::ieee::NEG_ZERO;
use crate::ieee::ONE_BITS;
use crate::ieee::is_nan_bits;
use crate::ieee::is_finite_bits;
use crate::ieee::is_zero_bits;
use crate::ieee::sign_field;
use crate::ieee::neg_bits;

/// Names the IEEE-754 binary32 sum of two values given as bit patterns.
pub uninterp spec fn add_of(a: u32, b: u32) -> u32;

/// Names the IEEE-754 binary32 difference of two values given as bit patterns.
pub uninterp spec fn sub_of(a: u32, b: u32) -> u32;

/// Names the IEEE-754 binary32 product of two values given as bit patterns.
pub uninterp spec fn mul_of(a: u32, b: u32) -> u32;

/// Names the IEEE-754 binary32 quotient of two values given as bit patterns.
pub uninterp spec fn div_of(a: u32, b: u32) -> u32;

/// Relies on rustc_apfloat's IEEE-754 binary32 addition (round to nearest,
/// ties to even): a pure function of the operand bit patterns. The exact
/// clauses are IEEE-754 identities: (+0)+(+0) = (-0)+(+0) = +0; x+(+0) = x
/// for every non-NaN x other than -0; addition is commutative when neither
/// operand is NaN.
#[verifier::external_body]
pub(crate) fn add_bits(a: u32, b: u32) -> (r: u32)
    ensures
        r == add_of(a, b),
        a == POS_ZERO && b == POS_ZERO ==> r == POS_ZERO,
        a == NEG_ZERO && b == POS_ZERO ==> r == POS_ZERO,
        !is_nan_bits(a) && a != NEG_ZERO && b == POS_ZERO ==> r == a,
        !is_nan_bits(b) && b != NEG_ZERO && a == POS_ZERO ==> r == b,
        !is_nan_bits(a) && !is_nan_bits(b) ==> r == add_of(b, a),
{
    (Single::from_bits(a as u128) + Single::from_bits(b as u128)).value.to_bits() as u32
}

/// Relies on rustc_apfloat's IEEE-754 binary32 subtraction (round to nearest,
/// ties to even): a pure function of the operand bit patterns. The exact
/// clauses are IEEE-754 identities: x-(+0) = x for non-NaN x; x-x = +0 for
/// finite x; a difference of finite operands is never NaN; and on non-NaN
/// operands with distinct patterns the difference flips sign when the
/// operands swap.
#[verifier::external_body]
pub(crate) fn sub_bits(a: u32, b: u32) -> (r: u32)
    ensures
        r == sub_of(a, b),
        !is_nan_bits(a) && b == POS_ZERO ==> r == a,
        a == b && is_finite_bits(a) ==> r == POS_ZERO,
        is_finite_bits(a) && is_finite_bits(b) ==> !is_nan_bits(r),
        !is_nan_bits(a) && !is_nan_bits(b) && a != b ==> r == neg_bits(sub_of(b, a)),
{
    (Single::from_bits(a as u128) - Single::from_bits(b as u128)).value.to_bits() as u32
}

/// Relies on rustc_apfloat's IEEE-754 binary32 multiplication (round to
/// nearest, ties to even): a pure function of the operand bit patterns. The
/// exact clauses are IEEE-754 identities: multiplication is commutative when
/// neither operand is NaN; a product of two zeros is the zero whose sign is
/// the product of the signs; 1.0 times a non-NaN x is x.
#[verifier::external_body]
pub(crate) fn mul_bits(a: u32, b: u32) -> (r: u32)
    ensures
        r == mul_of(a, b),
        !is_nan_bits(a) && !is_nan_bits(b) ==> r == mul_of(b, a),
        is_zero_bits(a) && is_zero_bits(b) ==> r == (if sign_field(a) == sign_field(b) {
            POS_ZERO
        } else {
            NEG_ZERO
        }),
        a == ONE_BITS && !is_nan_bits(b) ==> r == b,
        b == ONE_BITS && !is_nan_bits(a) ==> r == a,
{
    (Single::from_bits(a as u128) * Single::from_bits(b as u128)).value.to_bits() as u32
}

/// Relies on rustc_apfloat's IEEE-754 binary32 division (round to nearest,
/// ties to even): a pure function of the operand bit patterns. The exact
/// clause is the IEEE-754 identity that a non-NaN value divided by 1.0 is
/// itself.
#[verifier::external_body]
pub(crate) fn div_bits(a: u32, b: u32) -> (r: u32)
    ensures
        r == div_of(a, b),
        b == ONE_BITS && !is_nan_bits(a) ==> r == a,
{
    (Single::from_bits(a as u128) / Single::from_bits(b as u128)).value.to_bits() as u32
}

} // verus!
