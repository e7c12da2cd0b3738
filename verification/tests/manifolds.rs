//! The default right-plus and right-minus of `LieGroup`, exercised on the
//! additive group of integer translations of the line.

use uify::manifolds::LieGroup;

#[derive(Copy, Clone, Debug, PartialEq)]
struct Shift(i64);

impl LieGroup for Shift {
    type Tangent = i64;

    fn identity() -> Self {
        Shift(0)
    }

    fn compose(&self, other: &Self) -> Self {
        Shift(self.0 + other.0)
    }

    fn inverse(&self) -> Self {
        Shift(-self.0)
    }

    fn exp(xi: &i64) -> Self {
        Shift(*xi)
    }

    fn log(&self) -> i64 {
        self.0
    }
}

#[test]
fn lie_group_default_plus_composes_with_exp() {
    assert_eq!(Shift(3).plus(&4), Shift(7));
    assert_eq!(Shift::identity().plus(&-2), Shift(-2));
}

#[test]
fn lie_group_default_minus_is_log_of_relative_motion() {
    assert_eq!(Shift(3).minus(&Shift(10)), 7);
    assert_eq!(Shift(5).minus(&Shift(5)), 0);
    let x = Shift(-4);
    let y = Shift(9);
    assert_eq!(x.plus(&x.minus(&y)), y);
}
