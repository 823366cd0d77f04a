//! Traits

use vstd::prelude::*;
use crate::data::product_of;

verus! {

/// The inputs that a configuration step can be applied to.
pub open spec fn taken_by<P, F: FnOnce(P) -> P>(configure: F) -> spec_fn(P) -> bool {
    |start: P| configure.requires((start,))
}

/// The pairs of an input and a result of a configuration step.
pub open spec fn made_by<P, F: FnOnce(P) -> P>(configure: F) -> spec_fn(P, P) -> bool {
    |start: P, end: P| configure.ensures((start,), end)
}

/// Overloaded `plot` method
pub trait Plot<This>: Sized {
    /// The properties associated to the plot
    type Properties;

    /// What `plot` asks of the step that configures the properties of
    /// `this`, which can be applied to the inputs in `takes`: that it can be
    /// applied to the properties that `this` starts with.
    spec fn accepts(this: This, takes: spec_fn(Self::Properties) -> bool) -> bool;

    /// What `plot` does: `after` is `before` with `this` registered under
    /// properties that the configuration step made, its samples scaled.
    /// `makes` holds the pairs of an input and a result of the configuration
    /// step, and `product` the triples of a sample, a factor and a result of
    /// the scaling.
    spec fn plotted(
        before: Self,
        this: This,
        makes: spec_fn(Self::Properties, Self::Properties) -> bool,
        product: spec_fn(u64, u64, u64) -> bool,
        after: Self,
    ) -> bool;

    /// Plots some `data` with some `configuration`.
    ///
    /// Samples and scale factors are bit patterns of doubles; `scale` is
    /// asked for the product of each sample and the factor of its axis.
    fn plot<F, S>(&mut self, this: This, configure: F, scale: &S) where
        F: FnOnce(Self::Properties) -> Self::Properties,
        S: Fn(u64, u64) -> u64,

        requires
            Self::accepts(this, taken_by(configure)),
            forall|sample: u64, factor: u64| scale.requires((sample, factor)),
        ensures
            Self::plotted(*old(self), this, made_by(configure), product_of(*scale), *final(self)),
    ;
}

} // verus!
