use crate::component::DensityComponent;
use crate::scalar::Scalar;
use std::marker::PhantomData;
use vstd::prelude::*;
use vstd::std_specs::cmp::PartialOrdIs;
use vstd::std_specs::cmp::PartialOrdSpec;

verus! {

/// The sum of the densities of `components` at `point`, accumulated from the
/// additive identity in order of observation.
pub open spec fn mixture_total<T: DensityComponent<K, V>, V: Scalar, K>(
    components: Seq<T>,
    point: &K,
) -> V
    decreases components.len(),
{
    if components.len() == 0 {
        V::zero_spec()
    } else {
        mixture_total::<T, V, K>(components.drop_last(), point).plus_spec(
            components.last().pdf_spec(point),
        )
    }
}

/// The equally weighted mean of the densities of `components` at `point`;
/// the additive identity where there is no component.
pub open spec fn mixture_mean<T: DensityComponent<K, V>, V: Scalar, K>(
    components: Seq<T>,
    point: &K,
) -> V {
    if components.len() == 0 {
        V::zero_spec()
    } else {
        mixture_total::<T, V, K>(components, point).mean_spec(components.len())
    }
}

/// Whether `point` is cut off by the bounds: it is, exactly when it lies
/// below the lower corner and below the upper corner as well. A point that is
/// only above the upper corner is not cut off.
pub open spec fn clips<K: PartialOrd>(lower: &K, upper: &K, point: &K) -> bool {
    point.is_lt(lower) && point.is_lt(upper)
}

/// The mathematical content of an estimator: its two corners and the
/// components observed so far, oldest first.
pub ghost struct EstimatorView<T, K> {
    pub lower: K,
    pub upper: K,
    pub components: Seq<T>,
}

impl<T, K> EstimatorView<T, K> {
    /// An estimator that has observed nothing.
    pub open spec fn fresh(lower: K, upper: K) -> Self {
        EstimatorView { lower, upper, components: Seq::empty() }
    }

    /// The estimator after one more observation.
    pub open spec fn observe(self, component: T) -> Self {
        EstimatorView { components: self.components.push(component), ..self }
    }

    /// The estimator after observing each of `batch` in turn.
    pub open spec fn observe_all(self, batch: Seq<T>) -> Self
        decreases batch.len(),
    {
        if batch.len() == 0 {
            self
        } else {
            self.observe_all(batch.drop_last()).observe(batch.last())
        }
    }

    /// How many components have been observed.
    pub open spec fn count(self) -> nat {
        self.components.len()
    }

    /// The aggregate density at `point`: the additive identity where nothing
    /// has been observed or the bounds cut `point` off, else the mean of the
    /// components' densities.
    pub open spec fn density<V: Scalar>(self, point: &K) -> V where
        T: DensityComponent<K, V>,
        K: PartialOrd,
     {
        if self.components.len() == 0 || clips(&self.lower, &self.upper, point) {
            V::zero_spec()
        } else {
            mixture_mean::<T, V, K>(self.components, point)
        }
    }
}

/// Why an operation of the estimator was refused.
#[derive(Clone, Copy, Debug, PartialEq, Eq, Structural)]
pub enum EstimatorError {
    /// The lower corner of the bounds is not at or below the upper one.
    Configuration,
    /// The operation is not offered.
    UnsupportedOperation,
}

/// A model that grows by observing components.
pub trait MixtureModel<T> {
    /// The components observed so far, oldest first.
    spec fn components(&self) -> Seq<T>;

    /// Takes `point` in as the newest component; those observed before
    /// stay, in their order.
    fn observe(&mut self, point: T)
        ensures
            final(self).components() == old(self).components().push(point),
    ;
}

/// An equally weighted mixture of observed components, cut off by a pair of
/// bounds.
pub struct BoundedEstimator<'a, T, V, K> {
    bounds: (&'a K, &'a K),
    observations: Vec<T>,
    pd_v: PhantomData<V>,
}

impl<'a, T, V, K> View for BoundedEstimator<'a, T, V, K> {
    type V = EstimatorView<T, K>;

    closed spec fn view(&self) -> EstimatorView<T, K> {
        EstimatorView {
            lower: *self.bounds.0,
            upper: *self.bounds.1,
            components: self.observations@,
        }
    }
}

impl<'a, T, V, K> BoundedEstimator<'a, T, V, K> {
    /// An estimator over `bounds`, lower corner first, that has observed
    /// nothing. The corners are taken as they are given, in whatever order.
    pub fn new(bounds: (&'a K, &'a K)) -> (estimator: Self)
        ensures
            estimator@ == EstimatorView::<T, K>::fresh(*bounds.0, *bounds.1),
    {
        Self { bounds, observations: Vec::new(), pd_v: PhantomData }
    }

    /// The components observed so far, oldest first.
    pub fn observations(&self) -> (observed: &Vec<T>)
        ensures
            observed@ == self@.components,
    {
        &self.observations
    }

    /// How many components have been observed.
    pub fn len(&self) -> (count: usize)
        ensures
            count == self@.count(),
    {
        self.observations.len()
    }

    /// The logarithm of the aggregate density is not offered: every call is
    /// refused, and nothing is approximated in its place.
    pub fn ln_pdf(&self, _x: &K) -> (refused: Result<V, EstimatorError>)
        ensures
            refused == Err::<V, EstimatorError>(EstimatorError::UnsupportedOperation),
    {
        Err(EstimatorError::UnsupportedOperation)
    }
}

impl<'a, T, V, K> MixtureModel<T> for BoundedEstimator<'a, T, V, K> {
    open spec fn components(&self) -> Seq<T> {
        self@.components
    }

    /// Appends `point` to the observations; the bounds and the earlier
    /// observations stay as they were.
    fn observe(&mut self, point: T)
        ensures
            final(self)@ == old(self)@.observe(point),
    {
        self.observations.push(point);
    }
}

impl<'a, T: DensityComponent<K, V>, V: Scalar, K> BoundedEstimator<'a, T, V, K> {
    /// The mean of the observed components' densities at `x`, with no regard
    /// to the bounds; the additive identity before the first observation.
    pub fn mean_at(&self, x: &K) -> (mean: V)
        ensures
            self@.count() == 0 ==> call_ensures(V::zero, (), mean),
            V::obeys_scalar_spec() && self@.count() == 0 ==> mean == V::zero_spec(),
            V::obeys_scalar_spec() && T::obeys_pdf_spec() ==> mean == mixture_mean::<T, V, K>(
                self@.components,
                x,
            ),
    {
        let count = self.observations.len();
        if count == 0 {
            return V::zero();
        }
        let mut total = V::zero();
        let mut seen: usize = 0;
        while seen < count
            invariant
                seen <= count,
                count == self.observations@.len(),
                V::obeys_scalar_spec() && T::obeys_pdf_spec() ==> total == mixture_total::<T, V, K>(
                    self.observations@.take(seen as int),
                    x,
                ),
            decreases count - seen,
        {
            let density = self.observations[seen].pdf(x);
            proof {
                let next = self.observations@.take(seen + 1);
                assert(next.drop_last() == self.observations@.take(seen as int));
                assert(next.last() == self.observations@[seen as int]);
            }
            total = total.plus(density);
            seen = seen + 1;
        }
        proof {
            assert(self.observations@.take(count as int) == self.observations@);
        }
        total.mean(count)
    }
}

impl<'a, T: DensityComponent<K, V>, V: Scalar, K: PartialOrd> BoundedEstimator<'a, T, V, K> {
    /// Whether `x` is cut off by the bounds: below the lower corner and
    /// below the upper corner too. The second comparison is made only where
    /// the first holds.
    pub fn clips(&self, x: &K) -> (cut: bool)
        ensures
            K::obeys_partial_cmp_spec() ==> cut == clips(&self@.lower, &self@.upper, x),
    {
        *x < *self.bounds.0 && *x < *self.bounds.1
    }

    /// The aggregate density at `x`: the additive identity before the first
    /// observation and where the bounds cut `x` off, else the mean of the
    /// observed components' densities.
    ///
    /// Before the first observation the result is what `V::zero` returns,
    /// whatever the types. What else is stated depends on which of the three
    /// type parameters behave as their models say; with all three, the
    /// result is `self@.density(x)` exactly.
    pub fn pdf(&self, x: &K) -> (density: V)
        ensures
            self@.count() == 0 ==> call_ensures(V::zero, (), density),
            V::obeys_scalar_spec() && self@.count() == 0 ==> density == V::zero_spec(),
            V::obeys_scalar_spec() && K::obeys_partial_cmp_spec() && clips(
                &self@.lower,
                &self@.upper,
                x,
            ) ==> density == V::zero_spec(),
            V::obeys_scalar_spec() && T::obeys_pdf_spec() ==> (density == V::zero_spec() || density
                == mixture_mean::<T, V, K>(self@.components, x)),
            V::obeys_scalar_spec() && T::obeys_pdf_spec() && K::obeys_partial_cmp_spec()
                ==> density == self@.density::<V>(x),
    {
        if self.observations.len() == 0 || self.clips(x) {
            V::zero()
        } else {
            self.mean_at(x)
        }
    }
}

impl<'a, T, V, K: PartialOrd> BoundedEstimator<'a, T, V, K> {
    /// As `new`, but refuses bounds whose lower corner is not at or below
    /// the upper one.
    pub fn try_new(bounds: (&'a K, &'a K)) -> (made: Result<Self, EstimatorError>)
        ensures
            K::obeys_partial_cmp_spec() ==> (made is Ok <==> bounds.0.is_le(bounds.1)),
            made matches Ok(estimator) ==> estimator@ == EstimatorView::<T, K>::fresh(
                *bounds.0,
                *bounds.1,
            ),
            made matches Err(error) ==> error == EstimatorError::Configuration,
    {
        if *bounds.0 <= *bounds.1 {
            Ok(Self::new(bounds))
        } else {
            Err(EstimatorError::Configuration)
        }
    }
}

} // verus!
