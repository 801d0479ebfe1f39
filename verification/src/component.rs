use vstd::prelude::*;

verus! {

/// One probabilistic contribution to a mixture: something whose density can
/// be evaluated at a point of type `K`, giving a value of type `V`.
///
/// A density is meant to be a pure function of the component and the point.
/// An implementation that is one says so by overriding `obeys_pdf_spec` and
/// `pdf_spec`, and must then prove that `pdf` returns what `pdf_spec` says.
/// Of an implementation that leaves the defaults, nothing is assumed.
///
/// Drawing points from a component is its own type's affair: the mixture
/// only ever evaluates.
pub trait DensityComponent<K, V> {
    /// Whether `pdf_spec` says what `pdf` returns.
    open spec fn obeys_pdf_spec() -> bool {
        false
    }

    /// The density of this component at `point`.
    open spec fn pdf_spec(&self, point: &K) -> V {
        arbitrary()
    }

    fn pdf(&self, point: &K) -> (d: V)
        ensures
            Self::obeys_pdf_spec() ==> d == self.pdf_spec(point),
    ;
}

} // verus!
