//! The unconstrained 2-component vector and its derived operations.

use vstd::prelude::*;
use crate::error::VecError;
use crate::float::FloatCast;
use crate::scalar::{Scalar, SignedScalar};
use crate::unit::{normalized_into, UnitVec2};

verus! {

/// A 2D vector: a freely constructible pair of components of any [`Scalar`]
/// type, with no invariant beyond being a well-typed pair.
#[derive(Clone, Copy, Debug, PartialEq)]
pub struct Vec2<T: Scalar> {
    /// The first component.
    pub x: T,
    /// The second component.
    pub y: T,
}

/// The value, if any, that component `t` converts to in the accumulator
/// type `F`.
pub open spec fn cast_spec<T: Scalar, F: FloatCast>(t: T) -> Option<F> {
    F::from_repr_spec(t.to_repr_spec())
}

/// Whether both components of `v` are representable in `F`.
pub open spec fn casts_ok<T: Scalar, F: FloatCast>(v: Vec2<T>) -> bool {
    cast_spec::<T, F>(v.x) is Some && cast_spec::<T, F>(v.y) is Some
}

/// The Euclidean length of `v` accumulated at `F`: the square root of the
/// sum of the squares of the converted components. Meaningful when both
/// conversions succeed.
pub open spec fn length_val<T: Scalar, F: FloatCast>(v: Vec2<T>) -> F
    recommends
        casts_ok::<T, F>(v),
{
    let fx = cast_spec::<T, F>(v.x)->0;
    let fy = cast_spec::<T, F>(v.y)->0;
    fx.times_spec(fx).plus_spec(fy.times_spec(fy)).sqrt_spec()
}

/// What `Vec2::length` returns: the length when both components convert,
/// and the conversion failure otherwise.
pub open spec fn length_res<T: Scalar, F: FloatCast>(v: Vec2<T>) -> Result<F, VecError> {
    if casts_ok::<T, F>(v) {
        Ok(length_val::<T, F>(v))
    } else {
        Err(VecError::Cast)
    }
}

/// The component-wise absolute difference of two vectors.
pub open spec fn diff_spec<T: Scalar>(a: Vec2<T>, b: Vec2<T>) -> Vec2<T> {
    Vec2 { x: a.x.abs_diff_spec(b.x), y: a.y.abs_diff_spec(b.y) }
}

/// What `Vec2::distance` returns: the length of the component-wise
/// difference of the two vectors.
pub open spec fn distance_res<T: Scalar, F: FloatCast>(a: Vec2<T>, b: Vec2<T>) -> Result<
    F,
    VecError,
> {
    length_res::<T, F>(diff_spec(a, b))
}

/// What normalization yields for `v`, as the pair of components of the unit
/// vector: the converted components each divided by the length; the
/// conversion failure when a component is not representable in `F`; and
/// `VecError::Normalize` when the length is zero, since a zero vector has no
/// direction.
pub open spec fn normalize_res<T: Scalar, F: FloatCast>(v: Vec2<T>) -> Result<(F, F), VecError> {
    if !casts_ok::<T, F>(v) {
        Err(VecError::Cast)
    } else {
        let len = length_val::<T, F>(v);
        if len.is_zero_spec() {
            Err(VecError::Normalize)
        } else {
            Ok(
                (
                    (cast_spec::<T, F>(v.x)->0).divide_spec(len),
                    (cast_spec::<T, F>(v.y)->0).divide_spec(len),
                ),
            )
        }
    }
}

impl<T: Scalar> Vec2<T> {
    /// Build a vector from its two components.
    pub fn new(x: T, y: T) -> (r: Self)
        ensures
            r == (Vec2 { x, y }),
    {
        Vec2 { x, y }
    }

    /// The first component.
    pub fn x(&self) -> (r: T)
        ensures
            r == self.x,
    {
        self.x
    }

    /// The second component.
    pub fn y(&self) -> (r: T)
        ensures
            r == self.y,
    {
        self.y
    }

    /// The Euclidean length of the vector, accumulated at `F`; fails when a
    /// component is not representable in `F`.
    pub fn length<F: FloatCast>(&self) -> (r: Result<F, VecError>)
        ensures
            r == length_res::<T, F>(*self),
    {
        let fx: F = match F::from_repr(self.x.to_repr()) {
            Some(v) => v,
            None => {
                return Err(VecError::Cast);
            },
        };
        let fy: F = match F::from_repr(self.y.to_repr()) {
            Some(v) => v,
            None => {
                return Err(VecError::Cast);
            },
        };
        Ok(fx.times(fx).plus(fy.times(fy)).sqrt())
    }

    /// The Euclidean distance between `self` and `other`: the length of
    /// their component-wise difference, accumulated at `F`. The difference
    /// is taken as a magnitude in the component type, so it exists for
    /// unsigned components as well, and measuring in either order yields
    /// the same result.
    pub fn distance<F: FloatCast>(&self, other: &Vec2<T>) -> (r: Result<F, VecError>)
        requires
            self.x.abs_diff_ok(other.x),
            self.y.abs_diff_ok(other.y),
        ensures
            r == distance_res::<T, F>(*self, *other),
    {
        let d = Vec2 { x: self.x.abs_diff(other.x), y: self.y.abs_diff(other.y) };
        d.length::<F>()
    }

    /// Normalize the vector into a unit vector backed by `F`. This is the
    /// sole path that constructs a `UnitVec2`. It fails with
    /// `VecError::Normalize` on a zero-length vector, which has no
    /// direction, and with `VecError::Cast` when a component is not
    /// representable in `F`.
    pub fn normalize<F: FloatCast>(self) -> (r: Result<UnitVec2<F>, VecError>)
        ensures
            normalized_into::<T, F>(self, r),
    {
        let len: F = match self.length::<F>() {
            Ok(l) => l,
            Err(e) => {
                return Err(e);
            },
        };
        if len.is_zero() {
            return Err(VecError::Normalize);
        }
        let fx: F = match F::from_repr(self.x.to_repr()) {
            Some(v) => v,
            None => {
                return Err(VecError::Cast);
            },
        };
        let fy: F = match F::from_repr(self.y.to_repr()) {
            Some(v) => v,
            None => {
                return Err(VecError::Cast);
            },
        };
        Ok(UnitVec2::from_parts(fx.divide(len), fy.divide(len)))
    }

    /// The components as a pair: the tuple counterpart of `new`.
    pub fn into_pair(self) -> (r: (T, T))
        ensures
            r == (self.x, self.y),
    {
        (self.x, self.y)
    }
}

impl<T: Scalar> From<(T, T)> for Vec2<T> {
    /// Build a vector from a pair of components.
    fn from(p: (T, T)) -> (r: Self)
        ensures
            r == (Vec2 { x: p.0, y: p.1 }),
    {
        Vec2 { x: p.0, y: p.1 }
    }
}

impl<T: Scalar> vstd::std_specs::convert::FromSpecImpl<(T, T)> for Vec2<T> {
    open spec fn obeys_from_spec() -> bool {
        true
    }

    open spec fn from_spec(p: (T, T)) -> Self {
        Vec2 { x: p.0, y: p.1 }
    }
}

impl<T: Scalar> From<[T; 2]> for Vec2<T> {
    /// Build a vector from a fixed two-element sequence of components.
    fn from(a: [T; 2]) -> (r: Self)
        ensures
            r == (Vec2 { x: a[0], y: a[1] }),
    {
        Vec2 { x: a[0], y: a[1] }
    }
}

impl<T: Scalar> vstd::std_specs::convert::FromSpecImpl<[T; 2]> for Vec2<T> {
    open spec fn obeys_from_spec() -> bool {
        true
    }

    open spec fn from_spec(a: [T; 2]) -> Self {
        Vec2 { x: a[0], y: a[1] }
    }
}

impl<T: SignedScalar> Vec2<T> {
    /// The component-wise absolute value. It exists only for component
    /// types whose capability distinguishes sign, so asking for it on an
    /// unsigned component type is rejected when the code is written; both
    /// components of the result are non-negative.
    pub fn abs(&self) -> (r: Vec2<T>)
        requires
            self.x.abs_ok(),
            self.y.abs_ok(),
        ensures
            r == (Vec2 { x: self.x.abs_spec(), y: self.y.abs_spec() }),
            !r.x.is_neg_spec(),
            !r.y.is_neg_spec(),
    {
        proof {
            self.x.lemma_abs_nonneg();
            self.y.lemma_abs_nonneg();
        }
        Vec2 { x: self.x.abs_value(), y: self.y.abs_value() }
    }
}

} // verus!
