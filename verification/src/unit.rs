//! The unit vector: a pair whose only construction path is normalization.

use vstd::prelude::*;
use crate::error::VecError;
use crate::float::FloatCast;
use crate::scalar::Scalar;
use crate::vec2::{normalize_res, Vec2};

verus! {

/// A 2D unit vector backed by an accumulator type `F`. Its fields are not
/// public: normalization is the only way to obtain a value, so a
/// `UnitVec2` always carries the components a successful normalization
/// produced, and there is no mutator that could disturb them. The guarantee
/// ends where [`UnitVec2::as_vec2`] strips it off.
#[derive(Clone, Copy, Debug, PartialEq)]
pub struct UnitVec2<F: FloatCast> {
    pub(crate) x: F,
    pub(crate) y: F,
}

/// How a result of normalizing `v` relates to [`normalize_res`]: a
/// successful result carries exactly the component pair that
/// `normalize_res` yields, and a failure is exactly its failure.
pub open spec fn normalized_into<T: Scalar, F: FloatCast>(
    v: Vec2<T>,
    r: Result<UnitVec2<F>, VecError>,
) -> bool {
    match r {
        Ok(u) => normalize_res::<T, F>(v) matches Ok(p) && u.spec_x() == p.0 && u.spec_y() == p.1,
        Err(e) => normalize_res::<T, F>(v) == Err::<(F, F), VecError>(e),
    }
}

impl<F: FloatCast> UnitVec2<F> {
    /// The first component.
    pub closed spec fn spec_x(self) -> F {
        self.x
    }

    /// The second component.
    pub closed spec fn spec_y(self) -> F {
        self.y
    }

    /// Crate-internal assembly of the pair a normalization produced; the
    /// normalization algorithm is its only caller.
    pub(crate) fn from_parts(x: F, y: F) -> (r: Self)
        ensures
            r.spec_x() == x,
            r.spec_y() == y,
    {
        UnitVec2 { x, y }
    }

    /// Build a transient vector from the two components and normalize it.
    pub fn new<T: Scalar>(x: T, y: T) -> (r: Result<Self, VecError>)
        ensures
            normalized_into::<T, F>((Vec2 { x, y }), r),
    {
        Vec2::new(x, y).normalize::<F>()
    }

    /// Normalize an existing vector.
    pub fn from_vec2<T: Scalar>(v: Vec2<T>) -> (r: Result<Self, VecError>)
        ensures
            normalized_into::<T, F>(v, r),
    {
        v.normalize::<F>()
    }

    /// The first component.
    pub fn x(&self) -> (r: F)
        ensures
            r == self.spec_x(),
    {
        self.x
    }

    /// The second component.
    pub fn y(&self) -> (r: F)
        ensures
            r == self.spec_y(),
    {
        self.y
    }

    /// Downgrade to a plain vector, explicitly and irreversibly giving up
    /// the unit-length guarantee: the result is an ordinary `Vec2` that may
    /// be changed freely.
    pub fn as_vec2(self) -> (r: Vec2<F>)
        ensures
            r == (Vec2 { x: self.spec_x(), y: self.spec_y() }),
    {
        Vec2 { x: self.x, y: self.y }
    }
}

} // verus!
