use vstd::prelude::*;

verus! {

/// Difference-in-means estimate of the effect of a binary treatment.
///
/// The fields are empty until a fit succeeds.
#[derive(Debug, Clone, Copy)]
pub struct BinaryTreatment<F> {
    pub candidate_causal_effect: Option<F>,
    pub intercept: Option<F>,
    pub sample_size: Option<F>,
}

impl<F> BinaryTreatment<F> {
    /// An estimator that has not been fitted.
    pub fn new() -> (r: Self)
        ensures
            r.candidate_causal_effect is None,
            r.intercept is None,
            r.sample_size is None,
    {
        BinaryTreatment { candidate_causal_effect: None, intercept: None, sample_size: None }
    }
}

} // verus!
