//! Generic 2D vector math with a type-level split between arbitrary vectors
//! and unit-length vectors.
//!
//! A [`Vec2`] is an unconstrained pair of components of any [`Scalar`] type.
//! Length, distance and normalization are carried out at an explicitly chosen
//! accumulator type, described by the [`FloatCast`] capability; normalization
//! is the sole way to obtain a [`UnitVec2`]. A [`Player`] pairs a position
//! with a direction.

pub mod error;
pub mod float;
pub mod ints;
pub mod laws;
pub mod player;
pub mod scalar;
pub mod unit;
pub mod vec2;

pub use error::VecError;
pub use float::FloatCast;
pub use player::Player;
pub use scalar::{Scalar, ScalarRepr, SignedScalar};
pub use unit::UnitVec2;
pub use vec2::Vec2;
