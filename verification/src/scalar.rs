use vstd::prelude::*;

verus! {

/// A numeric type in which densities are measured and averaged: it has an
/// additive identity, sums, and the division of a sum into equal parts.
///
/// An implementation whose operations are pure functions of their arguments
/// says so by overriding `obeys_scalar_spec` and the three spec functions,
/// and must then prove that its methods return what they say. Of an
/// implementation that leaves the defaults, nothing is assumed.
pub trait Scalar: Copy {
    /// Whether the spec functions say what the methods return.
    open spec fn obeys_scalar_spec() -> bool {
        false
    }

    /// The additive identity.
    open spec fn zero_spec() -> Self {
        arbitrary()
    }

    /// The sum of `self` and `rhs`.
    open spec fn plus_spec(self, rhs: Self) -> Self {
        arbitrary()
    }

    /// `self` divided evenly among `count` equally weighted parts.
    open spec fn mean_spec(self, count: nat) -> Self {
        arbitrary()
    }

    fn zero() -> (z: Self)
        ensures
            Self::obeys_scalar_spec() ==> z == Self::zero_spec(),
    ;

    fn plus(self, rhs: Self) -> (s: Self)
        ensures
            Self::obeys_scalar_spec() ==> s == self.plus_spec(rhs),
    ;

    /// The estimator never asks for a mean over no parts.
    fn mean(self, count: usize) -> (m: Self)
        requires
            count > 0,
        ensures
            Self::obeys_scalar_spec() ==> m == self.mean_spec(count as nat),
    ;
}

/// Whether the order of the two operands of `V`'s sum is immaterial.
pub open spec fn plus_commutes<V: Scalar>() -> bool {
    forall|a: V, b: V| #[trigger] a.plus_spec(b) == b.plus_spec(a)
}

/// Whether the grouping of `V`'s sums is immaterial.
pub open spec fn plus_associates<V: Scalar>() -> bool {
    forall|a: V, b: V, c: V| #[trigger]
        a.plus_spec(b).plus_spec(c) == a.plus_spec(b.plus_spec(c))
}

} // verus!
