use vstd::prelude::*;

verus! {

/// The numeric capability set that a vector component must supply.
///
/// Each executable operation is tied to a specification function of the same
/// name, so that a vector's contracts can speak of exactly which scalar
/// operations produced each of its components. A concrete precision (single
/// or double) defines these functions as its own floating-point semantics.
pub trait Float: Copy + Sized {
    spec fn spec_add(self, rhs: Self) -> Self;

    spec fn spec_sub(self, rhs: Self) -> Self;

    spec fn spec_mul(self, rhs: Self) -> Self;

    spec fn spec_div(self, rhs: Self) -> Self;

    spec fn spec_neg(self) -> Self;

    spec fn spec_sqrt(self) -> Self;

    spec fn spec_powi(self, n: i32) -> Self;

    spec fn spec_recip(self) -> Self;

    spec fn spec_zero() -> Self;

    spec fn spec_one() -> Self;

    spec fn spec_from_i32(n: i32) -> Self;

    /// `self <= rhs` in the scalar's own ordering (false whenever either side is NaN).
    spec fn spec_le(self, rhs: Self) -> bool;

    /// `self < rhs` in the scalar's own ordering (false whenever either side is NaN).
    spec fn spec_lt(self, rhs: Self) -> bool;

    fn add(self, rhs: Self) -> (r: Self)
        ensures
            r == self.spec_add(rhs),
    ;

    fn sub(self, rhs: Self) -> (r: Self)
        ensures
            r == self.spec_sub(rhs),
    ;

    fn mul(self, rhs: Self) -> (r: Self)
        ensures
            r == self.spec_mul(rhs),
    ;

    fn div(self, rhs: Self) -> (r: Self)
        ensures
            r == self.spec_div(rhs),
    ;

    fn neg(self) -> (r: Self)
        ensures
            r == self.spec_neg(),
    ;

    fn sqrt(self) -> (r: Self)
        ensures
            r == self.spec_sqrt(),
    ;

    fn powi(self, n: i32) -> (r: Self)
        ensures
            r == self.spec_powi(n),
    ;

    fn recip(self) -> (r: Self)
        ensures
            r == self.spec_recip(),
    ;

    fn zero() -> (r: Self)
        ensures
            r == Self::spec_zero(),
    ;

    fn one() -> (r: Self)
        ensures
            r == Self::spec_one(),
    ;

    fn from_i32(n: i32) -> (r: Self)
        ensures
            r == Self::spec_from_i32(n),
    ;

    fn le(&self, rhs: &Self) -> (r: bool)
        ensures
            r == self.spec_le(*rhs),
    ;

    fn lt(&self, rhs: &Self) -> (r: bool)
        ensures
            r == self.spec_lt(*rhs),
    ;

    /// A sample of the scalar's default distribution, which lies in `[0, 1)`.
    fn random() -> (r: Self)
        ensures
            Self::spec_zero().spec_le(r),
            r.spec_lt(Self::spec_one()),
    ;

    /// A sample drawn uniformly from `[low, high)`; the range must not be empty.
    fn random_range(low: Self, high: Self) -> (r: Self)
        requires
            low.spec_lt(high),
        ensures
            low.spec_le(r),
            r.spec_lt(high),
    ;
}

} // verus!
