//! The component capability, and the carrier that moves component values
//! across it.

use vstd::prelude::*;

verus! {

/// A width-independent carrier for the value of a single component, used to
/// hand components across the numeric-capability boundary. Integer values
/// travel as their mathematical value widened to 128 bits; values of
/// single- or double-precision carrier types travel as an IEEE 754 bit
/// pattern, which the receiving [`crate::FloatCast`] type interprets.
#[derive(Clone, Copy, Debug, PartialEq, Eq)]
pub enum ScalarRepr {
    /// The value of a signed integer component.
    Signed(i128),
    /// The value of an unsigned integer component.
    Unsigned(u128),
    /// The IEEE 754 binary32 bit pattern of a single-precision component.
    Bits32(u32),
    /// The IEEE 754 binary64 bit pattern of a double-precision component.
    Bits64(u64),
}

impl ScalarRepr {
    /// Whether the carried value is numerically zero; the bit-pattern forms
    /// cover both IEEE 754 zeroes, whose sign bit may be set.
    pub open spec fn is_zero_repr(self) -> bool {
        match self {
            ScalarRepr::Signed(i) => i == 0,
            ScalarRepr::Unsigned(u) => u == 0,
            ScalarRepr::Bits32(b) => b & 0x7fff_ffffu32 == 0,
            ScalarRepr::Bits64(b) => b & 0x7fff_ffff_ffff_ffffu64 == 0,
        }
    }

    /// Whether the carried value is an integer, so that its magnitude is
    /// either zero or at least one.
    pub open spec fn is_int_repr(self) -> bool {
        match self {
            ScalarRepr::Signed(_) => true,
            ScalarRepr::Unsigned(_) => true,
            ScalarRepr::Bits32(_) => false,
            ScalarRepr::Bits64(_) => false,
        }
    }
}

/// Capability of a numeric type usable as a `Vec2` component: it reports its
/// value through a [`ScalarRepr`], knows whether it is zero, and supports the
/// absolute difference on which `distance` is built.
///
/// The crate implements it for every primitive integer type. A caller may
/// implement it for a numeric type of its own; the three lemmas are the
/// laws such an implementation owes the derived operations.
pub trait Scalar: Sized + Copy {
    /// The representation that `to_repr` reports.
    spec fn to_repr_spec(self) -> ScalarRepr;

    /// Whether the value is zero.
    spec fn is_zero_spec(self) -> bool;

    /// Whether the absolute difference of `self` and `other` is
    /// representable in the type.
    spec fn abs_diff_ok(self, other: Self) -> bool;

    /// The absolute difference of `self` and `other`.
    spec fn abs_diff_spec(self, other: Self) -> Self;

    /// Hand out the component's value.
    fn to_repr(self) -> (r: ScalarRepr)
        ensures
            r == self.to_repr_spec(),
    ;

    /// The absolute difference of two components.
    fn abs_diff(self, other: Self) -> (r: Self)
        requires
            self.abs_diff_ok(other),
        ensures
            r == self.abs_diff_spec(other),
    ;

    /// A value is zero exactly when its representation is.
    proof fn lemma_zero_repr(self)
        ensures
            self.is_zero_spec() == self.to_repr_spec().is_zero_repr(),
    ;

    /// The absolute difference is symmetric.
    proof fn lemma_abs_diff_sym(self, other: Self)
        ensures
            self.abs_diff_ok(other) == other.abs_diff_ok(self),
            self.abs_diff_ok(other) ==> self.abs_diff_spec(other) == other.abs_diff_spec(self),
    ;

    /// The absolute difference of a value with itself is zero.
    proof fn lemma_abs_diff_self(self)
        ensures
            self.abs_diff_ok(self),
            self.abs_diff_spec(self).is_zero_spec(),
    ;
}

/// A [`Scalar`] whose type distinguishes negative values, so that the
/// component-wise absolute value is available. Only such types offer it:
/// asking for it on an unsigned component type is rejected when the code is
/// written, not when it runs.
pub trait SignedScalar: Scalar {
    /// Whether the value is negative.
    spec fn is_neg_spec(self) -> bool;

    /// Whether the absolute value of `self` is representable in the type.
    spec fn abs_ok(self) -> bool;

    /// The absolute value of `self`.
    spec fn abs_spec(self) -> Self;

    /// The absolute value of the component.
    fn abs_value(self) -> (r: Self)
        requires
            self.abs_ok(),
        ensures
            r == self.abs_spec(),
    ;

    /// A representable absolute value is never negative.
    proof fn lemma_abs_nonneg(self)
        requires
            self.abs_ok(),
        ensures
            !self.abs_spec().is_neg_spec(),
    ;
}

} // verus!
