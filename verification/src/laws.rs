//! The general laws of the derived operations, proved once and for all: they
//! hold at every component type and every accumulator type whose capability
//! implementations satisfy the lemmas their traits ask of them.

use vstd::prelude::*;
use crate::error::VecError;
use crate::float::FloatCast;
use crate::scalar::Scalar;
use crate::vec2::{cast_spec, casts_ok, diff_spec, distance_res, length_res, normalize_res, Vec2};

verus! {

/// A vector whose components are both zero has length zero, at every
/// accumulator type.
pub proof fn lemma_zero_vector_length<T: Scalar, F: FloatCast>(v: Vec2<T>)
    requires
        v.x.is_zero_spec(),
        v.y.is_zero_spec(),
    ensures
        length_res::<T, F>(v) matches Ok(l) && l.is_zero_spec(),
{
    v.x.lemma_zero_repr();
    v.y.lemma_zero_repr();
    F::lemma_cast_zero(v.x.to_repr_spec());
    F::lemma_cast_zero(v.y.to_repr_spec());
    let fx = cast_spec::<T, F>(v.x)->0;
    let fy = cast_spec::<T, F>(v.y)->0;
    F::lemma_zero_times(fx);
    F::lemma_zero_times(fy);
    F::lemma_zero_plus(fx.times_spec(fx), fy.times_spec(fy));
    F::lemma_zero_sqrt(fx.times_spec(fx).plus_spec(fy.times_spec(fy)));
}

/// Normalizing a vector whose components are both zero fails with the
/// zero-length error, at every component and accumulator type.
pub proof fn lemma_zero_vector_normalize<T: Scalar, F: FloatCast>(v: Vec2<T>)
    requires
        v.x.is_zero_spec(),
        v.y.is_zero_spec(),
    ensures
        normalize_res::<T, F>(v) == Err::<(F, F), VecError>(VecError::Normalize),
{
    lemma_zero_vector_length::<T, F>(v);
}

/// Distance is symmetric: measuring from `a` to `b` and from `b` to `a`
/// yields the same result, wherever the component differences exist.
pub proof fn lemma_distance_symmetric<T: Scalar, F: FloatCast>(a: Vec2<T>, b: Vec2<T>)
    requires
        a.x.abs_diff_ok(b.x),
        a.y.abs_diff_ok(b.y),
    ensures
        b.x.abs_diff_ok(a.x),
        b.y.abs_diff_ok(a.y),
        distance_res::<T, F>(a, b) == distance_res::<T, F>(b, a),
{
    a.x.lemma_abs_diff_sym(b.x);
    a.y.lemma_abs_diff_sym(b.y);
    assert(diff_spec(a, b) == diff_spec(b, a));
}

/// A vector of integer components that is not zero and whose components are
/// both representable in the accumulator type normalizes successfully: an
/// integer magnitude below one is exactly zero, so a nonzero integer vector
/// cannot be measured at length zero.
pub proof fn lemma_nonzero_int_normalizes<T: Scalar, F: FloatCast>(v: Vec2<T>)
    requires
        v.x.to_repr_spec().is_int_repr(),
        v.y.to_repr_spec().is_int_repr(),
        !v.x.is_zero_spec() || !v.y.is_zero_spec(),
        casts_ok::<T, F>(v),
    ensures
        normalize_res::<T, F>(v) is Ok,
{
    v.x.lemma_zero_repr();
    v.y.lemma_zero_repr();
    F::lemma_int_length_nonzero(v.x.to_repr_spec(), v.y.to_repr_spec());
}

/// The distance of a vector to itself is zero, at every accumulator type.
pub proof fn lemma_distance_self<T: Scalar, F: FloatCast>(a: Vec2<T>)
    ensures
        a.x.abs_diff_ok(a.x),
        a.y.abs_diff_ok(a.y),
        distance_res::<T, F>(a, a) matches Ok(d) && d.is_zero_spec(),
{
    a.x.lemma_abs_diff_self();
    a.y.lemma_abs_diff_self();
    lemma_zero_vector_length::<T, F>(diff_spec(a, a));
}

} // verus!
