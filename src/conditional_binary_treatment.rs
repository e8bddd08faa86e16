use vstd::prelude::*;

verus! {

/// Binary treatment effect averaged over groups, each group's estimate
/// weighted by its sample size.
///
/// The fields are empty until a fit succeeds.
#[derive(Debug, Clone, Copy)]
pub struct ConditionalBinaryTreatment<F> {
    pub candidate_causal_effect: Option<F>,
    pub intercept: Option<F>,
    pub sample_size: Option<F>,
}

impl<F> ConditionalBinaryTreatment<F> {
    /// An estimator that has not been fitted.
    pub fn new() -> (r: Self)
        ensures
            r.candidate_causal_effect is None,
            r.intercept is None,
            r.sample_size is None,
    {
        ConditionalBinaryTreatment {
            candidate_causal_effect: None,
            intercept: None,
            sample_size: None,
        }
    }
}

} // verus!
