//! Scenario tests for the vector library, run with concrete floating
//! accumulator types built on `f32` and `f64`.

use vec2d::{FloatCast, Player, Scalar, ScalarRepr, UnitVec2, Vec2, VecError};

/// A double-precision accumulator.
#[derive(Clone, Copy, Debug, PartialEq)]
struct F64W(f64);

/// A single-precision accumulator with checked conversions: a value that a
/// finite `f32` cannot hold is reported as not representable.
#[derive(Clone, Copy, Debug, PartialEq)]
struct F32W(f32);

impl Scalar for F64W {
    fn to_repr(self) -> ScalarRepr {
        ScalarRepr::Bits64(self.0.to_bits())
    }

    fn to_repr_spec(self) -> ScalarRepr {
        self.to_repr()
    }

    fn is_zero_spec(self) -> bool {
        self.0 == 0.0
    }

    fn abs_diff_ok(self, _other: Self) -> bool {
        true
    }

    fn abs_diff(self, other: Self) -> Self {
        F64W((self.0 - other.0).abs())
    }

    fn abs_diff_spec(self, other: Self) -> Self {
        self.abs_diff(other)
    }

    fn lemma_zero_repr(self) {}

    fn lemma_abs_diff_sym(self, _other: Self) {}

    fn lemma_abs_diff_self(self) {}
}

impl FloatCast for F64W {
    fn from_repr(r: ScalarRepr) -> Option<F64W> {
        match r {
            ScalarRepr::Signed(i) => Some(F64W(i as f64)),
            ScalarRepr::Unsigned(u) => Some(F64W(u as f64)),
            ScalarRepr::Bits32(b) => Some(F64W(f32::from_bits(b) as f64)),
            ScalarRepr::Bits64(b) => Some(F64W(f64::from_bits(b))),
        }
    }

    fn from_repr_spec(r: ScalarRepr) -> Option<F64W> {
        F64W::from_repr(r)
    }

    fn is_zero(self) -> bool {
        self.0 == 0.0
    }

    fn plus(self, other: Self) -> Self {
        F64W(self.0 + other.0)
    }

    fn plus_spec(self, other: Self) -> Self {
        self.plus(other)
    }

    fn times(self, other: Self) -> Self {
        F64W(self.0 * other.0)
    }

    fn times_spec(self, other: Self) -> Self {
        self.times(other)
    }

    fn divide(self, other: Self) -> Self {
        F64W(self.0 / other.0)
    }

    fn divide_spec(self, other: Self) -> Self {
        self.divide(other)
    }

    fn sqrt(self) -> Self {
        F64W(self.0.sqrt())
    }

    fn sqrt_spec(self) -> Self {
        self.sqrt()
    }

    fn lemma_cast_zero(_r: ScalarRepr) {}

    fn lemma_zero_plus(_a: Self, _b: Self) {}

    fn lemma_zero_times(_a: Self) {}

    fn lemma_zero_sqrt(_a: Self) {}

    fn lemma_int_length_nonzero(_rx: ScalarRepr, _ry: ScalarRepr) {}
}

fn narrowed(v: f64) -> Option<F32W> {
    if v.is_finite() && (v < f32::MIN as f64 || v > f32::MAX as f64) {
        None
    } else {
        Some(F32W(v as f32))
    }
}

impl Scalar for F32W {
    fn to_repr(self) -> ScalarRepr {
        ScalarRepr::Bits32(self.0.to_bits())
    }

    fn to_repr_spec(self) -> ScalarRepr {
        self.to_repr()
    }

    fn is_zero_spec(self) -> bool {
        self.0 == 0.0
    }

    fn abs_diff_ok(self, _other: Self) -> bool {
        true
    }

    fn abs_diff(self, other: Self) -> Self {
        F32W((self.0 - other.0).abs())
    }

    fn abs_diff_spec(self, other: Self) -> Self {
        self.abs_diff(other)
    }

    fn lemma_zero_repr(self) {}

    fn lemma_abs_diff_sym(self, _other: Self) {}

    fn lemma_abs_diff_self(self) {}
}

impl FloatCast for F32W {
    fn from_repr(r: ScalarRepr) -> Option<F32W> {
        match r {
            ScalarRepr::Signed(i) => narrowed(i as f64),
            ScalarRepr::Unsigned(u) => narrowed(u as f64),
            ScalarRepr::Bits32(b) => Some(F32W(f32::from_bits(b))),
            ScalarRepr::Bits64(b) => narrowed(f64::from_bits(b)),
        }
    }

    fn from_repr_spec(r: ScalarRepr) -> Option<F32W> {
        F32W::from_repr(r)
    }

    fn is_zero(self) -> bool {
        self.0 == 0.0
    }

    fn plus(self, other: Self) -> Self {
        F32W(self.0 + other.0)
    }

    fn plus_spec(self, other: Self) -> Self {
        self.plus(other)
    }

    fn times(self, other: Self) -> Self {
        F32W(self.0 * other.0)
    }

    fn times_spec(self, other: Self) -> Self {
        self.times(other)
    }

    fn divide(self, other: Self) -> Self {
        F32W(self.0 / other.0)
    }

    fn divide_spec(self, other: Self) -> Self {
        self.divide(other)
    }

    fn sqrt(self) -> Self {
        F32W(self.0.sqrt())
    }

    fn sqrt_spec(self) -> Self {
        self.sqrt()
    }

    fn lemma_cast_zero(_r: ScalarRepr) {}

    fn lemma_zero_plus(_a: Self, _b: Self) {}

    fn lemma_zero_times(_a: Self) {}

    fn lemma_zero_sqrt(_a: Self) {}

    fn lemma_int_length_nonzero(_rx: ScalarRepr, _ry: ScalarRepr) {}
}

#[test]
fn zero_vector_length_is_zero() {
    assert_eq!(Vec2::new(0u8, 0u8).length::<F64W>(), Ok(F64W(0.0)));
    assert_eq!(Vec2::new(0i32, 0i32).length::<F64W>(), Ok(F64W(0.0)));
    assert_eq!(Vec2::new(0u128, 0u128).length::<F32W>(), Ok(F32W(0.0)));
    assert_eq!(Vec2::new(0isize, 0isize).length::<F32W>(), Ok(F32W(0.0)));
    assert_eq!(Vec2::new(F64W(0.0), F64W(0.0)).length::<F64W>(), Ok(F64W(0.0)));
    assert_eq!(Vec2::new(F64W(-0.0), F64W(0.0)).length::<F64W>(), Ok(F64W(0.0)));
}

#[test]
fn normalize_nonzero_has_unit_length() {
    let cases: Vec<(i64, i64)> = vec![(3, 4), (1, 2), (5, 12), (7, 0), (0, 9), (-8, 15)];
    for (x, y) in cases {
        let u = Vec2::new(x, y).normalize::<F64W>().unwrap();
        let len = u.as_vec2().length::<F64W>().unwrap();
        assert!((len.0 - 1.0).abs() < 1e-6);
    }
}

#[test]
fn normalize_zero_vector_fails() {
    assert_eq!(Vec2::new(0u8, 0u8).normalize::<F64W>(), Err(VecError::Normalize));
    assert_eq!(Vec2::new(0i32, 0i32).normalize::<F64W>(), Err(VecError::Normalize));
    assert_eq!(Vec2::new(0u128, 0u128).normalize::<F32W>(), Err(VecError::Normalize));
    assert_eq!(Vec2::new(0i128, 0i128).normalize::<F32W>(), Err(VecError::Normalize));
    assert_eq!(
        Vec2::new(F32W(0.0), F32W(-0.0)).normalize::<F32W>(),
        Err(VecError::Normalize)
    );
}

#[test]
fn distance_is_symmetric() {
    let a = Vec2::new(1u8, 5u8);
    let b = Vec2::new(4u8, 2u8);
    assert_eq!(a.distance::<F64W>(&b), b.distance::<F64W>(&a));

    let c = Vec2::new(-7i32, 3i32);
    let d = Vec2::new(5i32, -11i32);
    assert_eq!(c.distance::<F64W>(&d), d.distance::<F64W>(&c));
}

#[test]
fn distance_to_self_is_zero() {
    let a = Vec2::new(13u64, 58u64);
    assert_eq!(a.distance::<F64W>(&a), Ok(F64W(0.0)));
    let b = Vec2::new(-9i16, 4i16);
    assert_eq!(b.distance::<F32W>(&b), Ok(F32W(0.0)));
}

#[test]
fn distance_concrete_value() {
    let a = Vec2::new(1u8, 1u8);
    let b = Vec2::new(4u8, 5u8);
    assert_eq!(a.distance::<F64W>(&b), Ok(F64W(5.0)));
}

#[test]
fn abs_is_componentwise_and_nonnegative() {
    assert_eq!(Vec2::new(-3i8, 4i8).abs(), Vec2::new(3i8, 4i8));
    assert_eq!(Vec2::new(-100i64, -42i64).abs(), Vec2::new(100i64, 42i64));
    let v = Vec2::new(-15isize, 0isize).abs();
    assert!(v.x() >= 0 && v.y() >= 0);
}

#[test]
fn normalize_round_trip_length_is_one() {
    let u = Vec2::new(3i64, 4i64).normalize::<F64W>().unwrap();
    assert_eq!(u.as_vec2().length::<F64W>(), Ok(F64W(1.0)));
}

#[test]
fn normalize_3_4_is_06_08() {
    let u = Vec2::new(3i32, 4i32).normalize::<F64W>().unwrap();
    assert_eq!(u.x(), F64W(0.6));
    assert_eq!(u.y(), F64W(0.8));

    let w = Vec2::new(3u8, 4u8).normalize::<F64W>().unwrap();
    assert_eq!((w.x(), w.y()), (F64W(0.6), F64W(0.8)));
}

#[test]
fn normalize_1_0_is_unit_x() {
    let u = Vec2::new(1i8, 0i8).normalize::<F32W>().unwrap();
    assert_eq!(u.x(), F32W(1.0));
    assert_eq!(u.y(), F32W(0.0));
}

#[test]
fn unrepresentable_component_is_a_cast_error() {
    let v = Vec2::new(u128::MAX, 0u128);
    assert_eq!(v.length::<F32W>(), Err(VecError::Cast));
    assert_eq!(v.normalize::<F32W>(), Err(VecError::Cast));
    assert_eq!(UnitVec2::<F32W>::from_vec2(v), Err(VecError::Cast));

    let huge = Vec2::new(F64W(1.0e300), F64W(0.0));
    assert_eq!(huge.length::<F32W>(), Err(VecError::Cast));
}

#[test]
fn unit_vec2_constructors_match_normalize() {
    let direct = Vec2::new(3u16, 4u16).normalize::<F64W>();
    assert_eq!(UnitVec2::<F64W>::new(3u16, 4u16), direct);
    assert_eq!(UnitVec2::<F64W>::from_vec2(Vec2::new(3u16, 4u16)), direct);
    assert_eq!(UnitVec2::<F64W>::new(0u16, 0u16), Err(VecError::Normalize));
}

#[test]
fn float_components_normalize() {
    let u = Vec2::new(F32W(3.0), F32W(4.0)).normalize::<F32W>().unwrap();
    assert_eq!(u.x(), F32W(0.6));
    assert_eq!(u.y(), F32W(0.8));

    let w = Vec2::new(F64W(3.0), F64W(4.0)).normalize::<F64W>().unwrap();
    assert_eq!((w.x(), w.y()), (F64W(0.6), F64W(0.8)));
}

#[test]
fn conversions_build_the_same_vector() {
    assert_eq!(Vec2::from((1u8, 2u8)), Vec2::new(1u8, 2u8));
    assert_eq!(Vec2::from([3i32, 4i32]), Vec2::new(3i32, 4i32));
    assert_eq!(Vec2::new(5u64, 6u64).into_pair(), (5u64, 6u64));
}

#[test]
fn players_compose_position_and_direction() {
    let p_i8 = Player::new(
        Vec2::from((3i8, 4i8)),
        UnitVec2::<F32W>::new(1i8, 0i8).unwrap(),
    );
    assert_eq!(p_i8.position, Vec2::new(3i8, 4i8));
    assert_eq!(p_i8.direction.x(), F32W(1.0));

    let p_u128 = Player::new(
        Vec2::from((3u128, 4u128)),
        UnitVec2::<F64W>::new(0u128, 1u128).unwrap(),
    );
    assert_eq!(p_u128.direction.y(), F64W(1.0));

    let p_isize = Player::new(
        Vec2::from((3isize, 4isize)),
        UnitVec2::<F32W>::new(1isize, 0isize).unwrap(),
    );
    assert_eq!(p_isize.position.into_pair(), (3isize, 4isize));

    let p_f32 = Player::new(
        Vec2::from((F32W(3.0), F32W(4.0))),
        UnitVec2::<F32W>::new(F32W(1.0), F32W(0.0)).unwrap(),
    );
    assert_eq!(p_f32.direction.x(), F32W(1.0));

    let p_f64 = Player::new(
        Vec2::from((F64W(3.0), F64W(4.0))),
        UnitVec2::<F64W>::new(F64W(1.0), F64W(0.0)).unwrap(),
    );
    assert_eq!(p_f64.direction.as_vec2(), Vec2::new(F64W(1.0), F64W(0.0)));
}
