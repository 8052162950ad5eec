//! The scalar capabilities for the primitive integer types.

use vstd::prelude::*;
use crate::scalar::{Scalar, ScalarRepr, SignedScalar};

verus! {

impl Scalar for u8 {
    open spec fn to_repr_spec(self) -> ScalarRepr {
        ScalarRepr::Unsigned(self as u128)
    }

    open spec fn is_zero_spec(self) -> bool {
        self == 0
    }

    open spec fn abs_diff_ok(self, other: Self) -> bool {
        true
    }

    open spec fn abs_diff_spec(self, other: Self) -> Self {
        if self >= other {
            (self - other) as u8
        } else {
            (other - self) as u8
        }
    }

    fn to_repr(self) -> ScalarRepr {
        ScalarRepr::Unsigned(self as u128)
    }

    fn abs_diff(self, other: Self) -> Self {
        if self >= other {
            self - other
        } else {
            other - self
        }
    }

    proof fn lemma_zero_repr(self) {
    }

    proof fn lemma_abs_diff_sym(self, other: Self) {
    }

    proof fn lemma_abs_diff_self(self) {
    }
}

impl Scalar for u16 {
    open spec fn to_repr_spec(self) -> ScalarRepr {
        ScalarRepr::Unsigned(self as u128)
    }

    open spec fn is_zero_spec(self) -> bool {
        self == 0
    }

    open spec fn abs_diff_ok(self, other: Self) -> bool {
        true
    }

    open spec fn abs_diff_spec(self, other: Self) -> Self {
        if self >= other {
            (self - other) as u16
        } else {
            (other - self) as u16
        }
    }

    fn to_repr(self) -> ScalarRepr {
        ScalarRepr::Unsigned(self as u128)
    }

    fn abs_diff(self, other: Self) -> Self {
        if self >= other {
            self - other
        } else {
            other - self
        }
    }

    proof fn lemma_zero_repr(self) {
    }

    proof fn lemma_abs_diff_sym(self, other: Self) {
    }

    proof fn lemma_abs_diff_self(self) {
    }
}

impl Scalar for u32 {
    open spec fn to_repr_spec(self) -> ScalarRepr {
        ScalarRepr::Unsigned(self as u128)
    }

    open spec fn is_zero_spec(self) -> bool {
        self == 0
    }

    open spec fn abs_diff_ok(self, other: Self) -> bool {
        true
    }

    open spec fn abs_diff_spec(self, other: Self) -> Self {
        if self >= other {
            (self - other) as u32
        } else {
            (other - self) as u32
        }
    }

    fn to_repr(self) -> ScalarRepr {
        ScalarRepr::Unsigned(self as u128)
    }

    fn abs_diff(self, other: Self) -> Self {
        if self >= other {
            self - other
        } else {
            other - self
        }
    }

    proof fn lemma_zero_repr(self) {
    }

    proof fn lemma_abs_diff_sym(self, other: Self) {
    }

    proof fn lemma_abs_diff_self(self) {
    }
}

impl Scalar for u64 {
    open spec fn to_repr_spec(self) -> ScalarRepr {
        ScalarRepr::Unsigned(self as u128)
    }

    open spec fn is_zero_spec(self) -> bool {
        self == 0
    }

    open spec fn abs_diff_ok(self, other: Self) -> bool {
        true
    }

    open spec fn abs_diff_spec(self, other: Self) -> Self {
        if self >= other {
            (self - other) as u64
        } else {
            (other - self) as u64
        }
    }

    fn to_repr(self) -> ScalarRepr {
        ScalarRepr::Unsigned(self as u128)
    }

    fn abs_diff(self, other: Self) -> Self {
        if self >= other {
            self - other
        } else {
            other - self
        }
    }

    proof fn lemma_zero_repr(self) {
    }

    proof fn lemma_abs_diff_sym(self, other: Self) {
    }

    proof fn lemma_abs_diff_self(self) {
    }
}

impl Scalar for u128 {
    open spec fn to_repr_spec(self) -> ScalarRepr {
        ScalarRepr::Unsigned(self)
    }

    open spec fn is_zero_spec(self) -> bool {
        self == 0
    }

    open spec fn abs_diff_ok(self, other: Self) -> bool {
        true
    }

    open spec fn abs_diff_spec(self, other: Self) -> Self {
        if self >= other {
            (self - other) as u128
        } else {
            (other - self) as u128
        }
    }

    fn to_repr(self) -> ScalarRepr {
        ScalarRepr::Unsigned(self)
    }

    fn abs_diff(self, other: Self) -> Self {
        if self >= other {
            self - other
        } else {
            other - self
        }
    }

    proof fn lemma_zero_repr(self) {
    }

    proof fn lemma_abs_diff_sym(self, other: Self) {
    }

    proof fn lemma_abs_diff_self(self) {
    }
}

impl Scalar for usize {
    open spec fn to_repr_spec(self) -> ScalarRepr {
        ScalarRepr::Unsigned(self as u128)
    }

    open spec fn is_zero_spec(self) -> bool {
        self == 0
    }

    open spec fn abs_diff_ok(self, other: Self) -> bool {
        true
    }

    open spec fn abs_diff_spec(self, other: Self) -> Self {
        if self >= other {
            (self - other) as usize
        } else {
            (other - self) as usize
        }
    }

    fn to_repr(self) -> ScalarRepr {
        ScalarRepr::Unsigned(self as u128)
    }

    fn abs_diff(self, other: Self) -> Self {
        if self >= other {
            self - other
        } else {
            other - self
        }
    }

    proof fn lemma_zero_repr(self) {
    }

    proof fn lemma_abs_diff_sym(self, other: Self) {
    }

    proof fn lemma_abs_diff_self(self) {
    }
}

impl Scalar for i8 {
    open spec fn to_repr_spec(self) -> ScalarRepr {
        ScalarRepr::Signed(self as i128)
    }

    open spec fn is_zero_spec(self) -> bool {
        self == 0
    }

    open spec fn abs_diff_ok(self, other: Self) -> bool {
        if self >= other {
            self - other <= i8::MAX
        } else {
            other - self <= i8::MAX
        }
    }

    open spec fn abs_diff_spec(self, other: Self) -> Self {
        if self >= other {
            (self - other) as i8
        } else {
            (other - self) as i8
        }
    }

    fn to_repr(self) -> ScalarRepr {
        ScalarRepr::Signed(self as i128)
    }

    fn abs_diff(self, other: Self) -> Self {
        if self >= other {
            self - other
        } else {
            other - self
        }
    }

    proof fn lemma_zero_repr(self) {
    }

    proof fn lemma_abs_diff_sym(self, other: Self) {
    }

    proof fn lemma_abs_diff_self(self) {
    }
}

impl SignedScalar for i8 {
    open spec fn is_neg_spec(self) -> bool {
        self < 0
    }

    open spec fn abs_ok(self) -> bool {
        self != i8::MIN
    }

    open spec fn abs_spec(self) -> Self {
        if self < 0 {
            (-self) as i8
        } else {
            self
        }
    }

    fn abs_value(self) -> Self {
        if self < 0 {
            -self
        } else {
            self
        }
    }

    proof fn lemma_abs_nonneg(self) {
    }
}

impl Scalar for i16 {
    open spec fn to_repr_spec(self) -> ScalarRepr {
        ScalarRepr::Signed(self as i128)
    }

    open spec fn is_zero_spec(self) -> bool {
        self == 0
    }

    open spec fn abs_diff_ok(self, other: Self) -> bool {
        if self >= other {
            self - other <= i16::MAX
        } else {
            other - self <= i16::MAX
        }
    }

    open spec fn abs_diff_spec(self, other: Self) -> Self {
        if self >= other {
            (self - other) as i16
        } else {
            (other - self) as i16
        }
    }

    fn to_repr(self) -> ScalarRepr {
        ScalarRepr::Signed(self as i128)
    }

    fn abs_diff(self, other: Self) -> Self {
        if self >= other {
            self - other
        } else {
            other - self
        }
    }

    proof fn lemma_zero_repr(self) {
    }

    proof fn lemma_abs_diff_sym(self, other: Self) {
    }

    proof fn lemma_abs_diff_self(self) {
    }
}

impl SignedScalar for i16 {
    open spec fn is_neg_spec(self) -> bool {
        self < 0
    }

    open spec fn abs_ok(self) -> bool {
        self != i16::MIN
    }

    open spec fn abs_spec(self) -> Self {
        if self < 0 {
            (-self) as i16
        } else {
            self
        }
    }

    fn abs_value(self) -> Self {
        if self < 0 {
            -self
        } else {
            self
        }
    }

    proof fn lemma_abs_nonneg(self) {
    }
}

impl Scalar for i32 {
    open spec fn to_repr_spec(self) -> ScalarRepr {
        ScalarRepr::Signed(self as i128)
    }

    open spec fn is_zero_spec(self) -> bool {
        self == 0
    }

    open spec fn abs_diff_ok(self, other: Self) -> bool {
        if self >= other {
            self - other <= i32::MAX
        } else {
            other - self <= i32::MAX
        }
    }

    open spec fn abs_diff_spec(self, other: Self) -> Self {
        if self >= other {
            (self - other) as i32
        } else {
            (other - self) as i32
        }
    }

    fn to_repr(self) -> ScalarRepr {
        ScalarRepr::Signed(self as i128)
    }

    fn abs_diff(self, other: Self) -> Self {
        if self >= other {
            self - other
        } else {
            other - self
        }
    }

    proof fn lemma_zero_repr(self) {
    }

    proof fn lemma_abs_diff_sym(self, other: Self) {
    }

    proof fn lemma_abs_diff_self(self) {
    }
}

impl SignedScalar for i32 {
    open spec fn is_neg_spec(self) -> bool {
        self < 0
    }

    open spec fn abs_ok(self) -> bool {
        self != i32::MIN
    }

    open spec fn abs_spec(self) -> Self {
        if self < 0 {
            (-self) as i32
        } else {
            self
        }
    }

    fn abs_value(self) -> Self {
        if self < 0 {
            -self
        } else {
            self
        }
    }

    proof fn lemma_abs_nonneg(self) {
    }
}

impl Scalar for i64 {
    open spec fn to_repr_spec(self) -> ScalarRepr {
        ScalarRepr::Signed(self as i128)
    }

    open spec fn is_zero_spec(self) -> bool {
        self == 0
    }

    open spec fn abs_diff_ok(self, other: Self) -> bool {
        if self >= other {
            self - other <= i64::MAX
        } else {
            other - self <= i64::MAX
        }
    }

    open spec fn abs_diff_spec(self, other: Self) -> Self {
        if self >= other {
            (self - other) as i64
        } else {
            (other - self) as i64
        }
    }

    fn to_repr(self) -> ScalarRepr {
        ScalarRepr::Signed(self as i128)
    }

    fn abs_diff(self, other: Self) -> Self {
        if self >= other {
            self - other
        } else {
            other - self
        }
    }

    proof fn lemma_zero_repr(self) {
    }

    proof fn lemma_abs_diff_sym(self, other: Self) {
    }

    proof fn lemma_abs_diff_self(self) {
    }
}

impl SignedScalar for i64 {
    open spec fn is_neg_spec(self) -> bool {
        self < 0
    }

    open spec fn abs_ok(self) -> bool {
        self != i64::MIN
    }

    open spec fn abs_spec(self) -> Self {
        if self < 0 {
            (-self) as i64
        } else {
            self
        }
    }

    fn abs_value(self) -> Self {
        if self < 0 {
            -self
        } else {
            self
        }
    }

    proof fn lemma_abs_nonneg(self) {
    }
}

impl Scalar for i128 {
    open spec fn to_repr_spec(self) -> ScalarRepr {
        ScalarRepr::Signed(self)
    }

    open spec fn is_zero_spec(self) -> bool {
        self == 0
    }

    open spec fn abs_diff_ok(self, other: Self) -> bool {
        if self >= other {
            self - other <= i128::MAX
        } else {
            other - self <= i128::MAX
        }
    }

    open spec fn abs_diff_spec(self, other: Self) -> Self {
        if self >= other {
            (self - other) as i128
        } else {
            (other - self) as i128
        }
    }

    fn to_repr(self) -> ScalarRepr {
        ScalarRepr::Signed(self)
    }

    fn abs_diff(self, other: Self) -> Self {
        if self >= other {
            self - other
        } else {
            other - self
        }
    }

    proof fn lemma_zero_repr(self) {
    }

    proof fn lemma_abs_diff_sym(self, other: Self) {
    }

    proof fn lemma_abs_diff_self(self) {
    }
}

impl SignedScalar for i128 {
    open spec fn is_neg_spec(self) -> bool {
        self < 0
    }

    open spec fn abs_ok(self) -> bool {
        self != i128::MIN
    }

    open spec fn abs_spec(self) -> Self {
        if self < 0 {
            (-self) as i128
        } else {
            self
        }
    }

    fn abs_value(self) -> Self {
        if self < 0 {
            -self
        } else {
            self
        }
    }

    proof fn lemma_abs_nonneg(self) {
    }
}

impl Scalar for isize {
    open spec fn to_repr_spec(self) -> ScalarRepr {
        ScalarRepr::Signed(self as i128)
    }

    open spec fn is_zero_spec(self) -> bool {
        self == 0
    }

    open spec fn abs_diff_ok(self, other: Self) -> bool {
        if self >= other {
            self - other <= isize::MAX
        } else {
            other - self <= isize::MAX
        }
    }

    open spec fn abs_diff_spec(self, other: Self) -> Self {
        if self >= other {
            (self - other) as isize
        } else {
            (other - self) as isize
        }
    }

    fn to_repr(self) -> ScalarRepr {
        ScalarRepr::Signed(self as i128)
    }

    fn abs_diff(self, other: Self) -> Self {
        if self >= other {
            self - other
        } else {
            other - self
        }
    }

    proof fn lemma_zero_repr(self) {
    }

    proof fn lemma_abs_diff_sym(self, other: Self) {
    }

    proof fn lemma_abs_diff_self(self) {
    }
}

impl SignedScalar for isize {
    open spec fn is_neg_spec(self) -> bool {
        self < 0
    }

    open spec fn abs_ok(self) -> bool {
        self != isize::MIN
    }

    open spec fn abs_spec(self) -> Self {
        if self < 0 {
            (-self) as isize
        } else {
            self
        }
    }

    fn abs_value(self) -> Self {
        if self < 0 {
            -self
        } else {
            self
        }
    }

    proof fn lemma_abs_nonneg(self) {
    }
}

} // verus!
