//! A position paired with a direction.

use vstd::prelude::*;
use crate::float::FloatCast;
use crate::scalar::Scalar;
use crate::unit::UnitVec2;
use crate::vec2::Vec2;

verus! {

/// An aggregate of a position and a direction. The direction is a unit
/// vector by construction; the aggregate adds no constraint of its own
/// across the two fields.
#[derive(Clone, Copy, Debug, PartialEq)]
pub struct Player<T: Scalar, F: FloatCast> {
    /// Where the player stands.
    pub position: Vec2<T>,
    /// Where the player faces; always unit length.
    pub direction: UnitVec2<F>,
}

impl<T: Scalar, F: FloatCast> Player<T, F> {
    /// Compose a player from a position and a direction.
    pub fn new(position: Vec2<T>, direction: UnitVec2<F>) -> (r: Self)
        ensures
            r.position == position,
            r.direction == direction,
    {
        Player { position, direction }
    }
}

} // verus!
