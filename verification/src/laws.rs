use crate::component::DensityComponent;
use crate::estimator::clips;
use crate::estimator::mixture_mean;
use crate::estimator::mixture_total;
use crate::estimator::EstimatorView;
use crate::scalar::plus_associates;
use crate::scalar::plus_commutes;
use crate::scalar::Scalar;
use vstd::prelude::*;
use vstd::seq_lib::to_multiset_contains;
use vstd::seq_lib::to_multiset_len;
use vstd::seq_lib::to_multiset_remove;
use vstd::std_specs::cmp::PartialOrdIs;

verus! {

/// An estimator that has observed nothing has the additive identity as its
/// density everywhere, whatever its bounds.
pub proof fn lemma_fresh_density_is_zero<T: DensityComponent<K, V>, V: Scalar, K: PartialOrd>(
    lower: K,
    upper: K,
    point: &K,
)
    ensures
        EstimatorView::<T, K>::fresh(lower, upper).density::<V>(point) == V::zero_spec(),
{
}

/// A point below the lower corner and below the upper corner has the
/// additive identity as its density, whatever has been observed.
pub proof fn lemma_density_below_both_corners_is_zero<
    T: DensityComponent<K, V>,
    V: Scalar,
    K: PartialOrd,
>(estimator: EstimatorView<T, K>, point: &K)
    requires
        point.is_lt(&estimator.lower),
        point.is_lt(&estimator.upper),
    ensures
        estimator.density::<V>(point) == V::zero_spec(),
{
}

/// A point above the upper corner that is at or above the lower corner is
/// not cut off: its density is the mean of the components' densities.
pub proof fn lemma_density_above_upper_corner_is_mean<
    T: DensityComponent<K, V>,
    V: Scalar,
    K: PartialOrd,
>(estimator: EstimatorView<T, K>, point: &K)
    requires
        point.is_gt(&estimator.upper),
        point.is_ge(&estimator.lower),
    ensures
        !clips(&estimator.lower, &estimator.upper, point),
        estimator.density::<V>(point) == mixture_mean::<T, V, K>(estimator.components, point),
{
}

/// Where the bounds do not cut a point off and something has been observed,
/// the density is the sum of the components' densities, divided evenly by
/// their number.
pub proof fn lemma_density_is_mean_of_densities<
    T: DensityComponent<K, V>,
    V: Scalar,
    K: PartialOrd,
>(estimator: EstimatorView<T, K>, point: &K)
    requires
        estimator.count() > 0,
        !clips(&estimator.lower, &estimator.upper, point),
    ensures
        estimator.density::<V>(point) == mixture_total::<T, V, K>(
            estimator.components,
            point,
        ).mean_spec(estimator.count()),
{
}

/// One more component adds its density to the total of those before it.
pub proof fn lemma_total_of_push<T: DensityComponent<K, V>, V: Scalar, K>(
    components: Seq<T>,
    component: T,
    point: &K,
)
    ensures
        mixture_total::<T, V, K>(components.push(component), point) == mixture_total::<T, V, K>(
            components,
            point,
        ).plus_spec(component.pdf_spec(point)),
{
    assert(components.push(component).drop_last() == components);
}

/// Observing a batch appends it, in order, to what was observed before, and
/// leaves the bounds alone: the count grows by the size of the batch.
pub proof fn lemma_observe_all_appends<T, K>(estimator: EstimatorView<T, K>, batch: Seq<T>)
    ensures
        estimator.observe_all(batch).components == estimator.components + batch,
        estimator.observe_all(batch).count() == estimator.count() + batch.len(),
        estimator.observe_all(batch).lower == estimator.lower,
        estimator.observe_all(batch).upper == estimator.upper,
    decreases batch.len(),
{
    if batch.len() == 0 {
        assert(estimator.components + batch == estimator.components);
    } else {
        lemma_observe_all_appends(estimator, batch.drop_last());
        assert((estimator.components + batch.drop_last()).push(batch.last())
            == estimator.components + batch);
    }
}

/// After observing a batch, a fresh estimator holds exactly that batch: as
/// many components as there were observations.
pub proof fn lemma_count_after_observations<T, K>(lower: K, upper: K, batch: Seq<T>)
    ensures
        EstimatorView::<T, K>::fresh(lower, upper).observe_all(batch).components == batch,
        EstimatorView::<T, K>::fresh(lower, upper).observe_all(batch).count() == batch.len(),
{
    lemma_observe_all_appends(EstimatorView::<T, K>::fresh(lower, upper), batch);
    assert(Seq::<T>::empty() + batch == batch);
}

/// Where sums may be regrouped and reordered, any one component's density
/// can be taken out of the total and added last.
pub proof fn lemma_total_of_remove<T: DensityComponent<K, V>, V: Scalar, K>(
    components: Seq<T>,
    index: int,
    point: &K,
)
    requires
        plus_commutes::<V>(),
        plus_associates::<V>(),
        0 <= index < components.len(),
    ensures
        mixture_total::<T, V, K>(components, point) == mixture_total::<T, V, K>(
            components.remove(index),
            point,
        ).plus_spec(components[index].pdf_spec(point)),
    decreases components.len(),
{
    let front = components.drop_last();
    if index == components.len() - 1 {
        assert(components.remove(index) == front);
    } else {
        lemma_total_of_remove::<T, V, K>(front, index, point);
        let rest = mixture_total::<T, V, K>(front.remove(index), point);
        let taken = components[index].pdf_spec(point);
        let last = components.last().pdf_spec(point);
        assert(front[index] == components[index]);
        assert(components.remove(index) == front.remove(index).push(components.last()));
        lemma_total_of_push::<T, V, K>(front.remove(index), components.last(), point);
        assert(rest.plus_spec(taken).plus_spec(last) == rest.plus_spec(taken.plus_spec(last)));
        assert(taken.plus_spec(last) == last.plus_spec(taken));
        assert(rest.plus_spec(last).plus_spec(taken) == rest.plus_spec(last.plus_spec(taken)));
    }
}

/// Where sums may be regrouped and reordered, the total of the densities
/// depends on which components were observed and how often, not on their
/// order.
pub proof fn lemma_total_ignores_order<T: DensityComponent<K, V>, V: Scalar, K>(
    first: Seq<T>,
    second: Seq<T>,
    point: &K,
)
    requires
        plus_commutes::<V>(),
        plus_associates::<V>(),
        first.to_multiset() == second.to_multiset(),
    ensures
        mixture_total::<T, V, K>(first, point) == mixture_total::<T, V, K>(second, point),
    decreases first.len(),
{
    to_multiset_len(first);
    to_multiset_len(second);
    if first.len() > 0 {
        let last = first.last();
        to_multiset_contains(first, last);
        to_multiset_contains(second, last);
        assert(first.contains(last)) by {
            assert(first[first.len() - 1] == last);
        }
        let index = choose|index: int| 0 <= index < second.len() && second[index] == last;
        to_multiset_remove(first, first.len() - 1);
        to_multiset_remove(second, index);
        assert(first.remove(first.len() - 1) == first.drop_last());
        lemma_total_ignores_order::<T, V, K>(first.drop_last(), second.remove(index), point);
        lemma_total_of_remove::<T, V, K>(second, index, point);
    }
}

/// Two estimators with the same bounds that observed the same components
/// equally often, in whatever order, have the same density at every point,
/// provided sums of the scalar may be regrouped and reordered.
pub proof fn lemma_density_ignores_order<T: DensityComponent<K, V>, V: Scalar, K: PartialOrd>(
    first: EstimatorView<T, K>,
    second: EstimatorView<T, K>,
    point: &K,
)
    requires
        plus_commutes::<V>(),
        plus_associates::<V>(),
        first.lower == second.lower,
        first.upper == second.upper,
        first.components.to_multiset() == second.components.to_multiset(),
    ensures
        first.density::<V>(point) == second.density::<V>(point),
{
    to_multiset_len(first.components);
    to_multiset_len(second.components);
    lemma_total_ignores_order::<T, V, K>(first.components, second.components, point);
}

} // verus!
