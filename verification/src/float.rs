//! The capability that backs lengths, distances and unit vectors.

use vstd::prelude::*;
use crate::scalar::{Scalar, ScalarRepr};

verus! {

/// Capability of a floating accumulator type: every length, distance and
/// normalization is carried out at such a type, chosen explicitly at each
/// call, and only such a type may back a [`crate::UnitVec2`].
///
/// The crate itself keeps the type abstract; a caller supplies one by
/// wrapping a floating representation and implementing the conversions and
/// the arithmetic on it. The conversion from a [`ScalarRepr`] is checked: it
/// yields nothing when the carried value is not representable in the
/// accumulator type. The lemmas are the laws an implementation owes the
/// derived operations; each holds of IEEE 754 arithmetic.
///
/// Every accumulator type is itself a [`Scalar`], so that the vector a unit
/// vector downgrades to can in turn be measured.
pub trait FloatCast: Scalar {
    /// The value, if any, that `from_repr` yields for `r`.
    spec fn from_repr_spec(r: ScalarRepr) -> Option<Self>;

    /// The sum of `self` and `other`.
    spec fn plus_spec(self, other: Self) -> Self;

    /// The product of `self` and `other`.
    spec fn times_spec(self, other: Self) -> Self;

    /// The quotient of `self` by `other`.
    spec fn divide_spec(self, other: Self) -> Self;

    /// The square root of `self`.
    spec fn sqrt_spec(self) -> Self;

    /// Convert a scalar representation into the accumulator type, or report
    /// that its value is not representable there.
    fn from_repr(r: ScalarRepr) -> (o: Option<Self>)
        ensures
            o == Self::from_repr_spec(r),
    ;

    /// Whether the value equals zero, exactly; the notion of zero is the
    /// one the [`Scalar`] capability of the type carries.
    fn is_zero(self) -> (b: bool)
        ensures
            b == self.is_zero_spec(),
    ;

    /// Add `other` to `self`.
    fn plus(self, other: Self) -> (r: Self)
        ensures
            r == self.plus_spec(other),
    ;

    /// Multiply `self` by `other`.
    fn times(self, other: Self) -> (r: Self)
        ensures
            r == self.times_spec(other),
    ;

    /// Divide `self` by a nonzero `other`.
    fn divide(self, other: Self) -> (r: Self)
        requires
            !other.is_zero_spec(),
        ensures
            r == self.divide_spec(other),
    ;

    /// The square root of `self`.
    fn sqrt(self) -> (r: Self)
        ensures
            r == self.sqrt_spec(),
    ;

    /// Converting a zero scalar yields a zero of the type.
    proof fn lemma_cast_zero(r: ScalarRepr)
        requires
            r.is_zero_repr(),
        ensures
            Self::from_repr_spec(r) matches Some(z) && z.is_zero_spec(),
    ;

    /// The sum of two zeroes is zero.
    proof fn lemma_zero_plus(a: Self, b: Self)
        requires
            a.is_zero_spec(),
            b.is_zero_spec(),
        ensures
            a.plus_spec(b).is_zero_spec(),
    ;

    /// The square of a zero is zero.
    proof fn lemma_zero_times(a: Self)
        requires
            a.is_zero_spec(),
        ensures
            a.times_spec(a).is_zero_spec(),
    ;

    /// The square root of a zero is zero.
    proof fn lemma_zero_sqrt(a: Self)
        requires
            a.is_zero_spec(),
        ensures
            a.sqrt_spec().is_zero_spec(),
    ;

    /// The length accumulated from two integer components, not both zero,
    /// is never zero: a nonzero integer magnitude is at least one, so no
    /// square, sum or square root on the way can fall back to zero.
    proof fn lemma_int_length_nonzero(rx: ScalarRepr, ry: ScalarRepr)
        requires
            rx.is_int_repr(),
            ry.is_int_repr(),
            !rx.is_zero_repr() || !ry.is_zero_repr(),
            Self::from_repr_spec(rx) is Some,
            Self::from_repr_spec(ry) is Some,
        ensures
            ({
                let fx = Self::from_repr_spec(rx)->0;
                let fy = Self::from_repr_spec(ry)->0;
                !fx.times_spec(fx).plus_spec(fy.times_spec(fy)).sqrt_spec().is_zero_spec()
            }),
    ;
}

} // verus!
