//! Lie groups used by trackers.
//!
//! Every group implementing [`LieGroup`] must satisfy, up to round-off:
//!
//! - `exp(log(x)) = x` for all `x` in the group
//! - `log(exp(xi)) = xi` for all tangent vectors `xi`
//! - `x minus x = 0`
//! - `x plus (x minus y) = y`
//!
//! The concrete groups (SO(2), SE(2), SO(3), SE(3)) compute on floating
//! point and live in the application crate.

use vstd::prelude::*;

verus! {

/// A matrix Lie group with a well-defined tangent space.
pub trait LieGroup: Sized {
    /// Tangent-space element type (typically a fixed-size vector).
    type Tangent;

    /// Group identity element.
    fn identity() -> Self;

    /// Group composition: `self . other`.
    fn compose(&self, other: &Self) -> Self;

    /// Group inverse.
    fn inverse(&self) -> Self;

    /// Exponential map: tangent to group.
    fn exp(xi: &Self::Tangent) -> Self;

    /// Logarithm: group to tangent.
    fn log(&self) -> Self::Tangent;

    /// Right-plus: `self (+) xi = self . exp(xi)`. The default body returns
    /// a possible result of `self.compose(e)` for a possible result `e` of
    /// `exp(xi)`.
    fn plus(&self, xi: &Self::Tangent) -> (r: Self)
        default_ensures
            exists|e: Self|
                #![trigger call_ensures(Self::exp, (xi,), e)]
                call_ensures(Self::exp, (xi,), e) && call_ensures(Self::compose, (self, &e), r),
    {
        let e = Self::exp(xi);
        self.compose(&e)
    }

    /// Right-minus: `other (-) self = log(self^-1 . other)`. The default
    /// body returns a possible result of `c.log()`, where `c` is a possible
    /// result of `i.compose(other)` and `i` one of `self.inverse()`.
    fn minus(&self, other: &Self) -> (r: Self::Tangent)
        default_ensures
            exists|i: Self, c: Self|
                #![trigger call_ensures(Self::inverse, (self,), i), call_ensures(Self::compose, (&i, other), c)]
                call_ensures(Self::inverse, (self,), i) && call_ensures(Self::compose, (&i, other), c)
                    && call_ensures(Self::log, (&c,), r),
    {
        let i = self.inverse();
        let c = i.compose(other);
        c.log()
    }
}

} // verus!
