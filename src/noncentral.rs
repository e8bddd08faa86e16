use vstd::prelude::*;

verus! {

/// How the noncentral t distribution function is evaluated.
#[derive(Debug, Clone, Copy, PartialEq, Eq, Structural)]
pub enum NoncentralRoute {
    /// The degrees of freedom are not finite and positive: no value.
    Absent,
    /// The noncentrality is zero: the central distribution function.
    Central,
    /// The Poisson mixture series over central distribution functions.
    Series,
}

/// The route for the given validity of the degrees of freedom and
/// nullity of the noncentrality parameter.
pub open spec fn route_of(df_finite_positive: bool, ncp_is_zero: bool) -> NoncentralRoute {
    if !df_finite_positive {
        NoncentralRoute::Absent
    } else if ncp_is_zero {
        NoncentralRoute::Central
    } else {
        NoncentralRoute::Series
    }
}

/// Chooses how the noncentral t distribution function is evaluated, given
/// whether the degrees of freedom are finite and positive and whether the
/// noncentrality parameter is zero.
pub fn noncentral_route(df_finite_positive: bool, ncp_is_zero: bool) -> (r: NoncentralRoute)
    ensures
        r == route_of(df_finite_positive, ncp_is_zero),
{
    if !df_finite_positive {
        NoncentralRoute::Absent
    } else if ncp_is_zero {
        NoncentralRoute::Central
    } else {
        NoncentralRoute::Series
    }
}

/// With zero noncentrality and valid degrees of freedom, the noncentral t
/// distribution function is the central one; invalid degrees of freedom
/// give no value whatever the noncentrality.
pub proof fn lemma_zero_ncp_is_central(ncp_is_zero: bool)
    ensures
        route_of(true, true) == NoncentralRoute::Central,
        route_of(false, ncp_is_zero) == NoncentralRoute::Absent,
{
}

/// The series stops after at most this many terms.
pub const MAX_TERMS: u64 = 100;

/// What evaluating one term of the series gave.
#[derive(Debug, Clone, Copy, PartialEq, Eq, Structural)]
pub enum TermOutcome {
    /// The central distribution function could not be evaluated.
    Failed,
    /// The term is below the tolerance; it is not added.
    Negligible,
    /// The term was added to the sum.
    Added,
}

/// What the series does after a term.
#[derive(Debug, Clone, Copy, PartialEq, Eq, Structural)]
pub enum SeriesStep {
    /// Give up: the whole evaluation has no value.
    Abort,
    /// Stop and report the sum.
    Finish,
    /// Evaluate the term with this index.
    Next(u64),
}

/// Decides what follows term `k` of the series.
pub fn series_step(k: u64, outcome: TermOutcome) -> (r: SeriesStep)
    requires
        k < MAX_TERMS,
    ensures
        r == SeriesStep::Abort <==> outcome == TermOutcome::Failed,
        r == SeriesStep::Next((k + 1) as u64) <==> outcome == TermOutcome::Added && k + 1
            < MAX_TERMS,
        r is Next ==> r->0 == k + 1 && r->0 < MAX_TERMS,
{
    match outcome {
        TermOutcome::Failed => SeriesStep::Abort,
        TermOutcome::Negligible => SeriesStep::Finish,
        TermOutcome::Added => {
            if k + 1 < MAX_TERMS {
                SeriesStep::Next(k + 1)
            } else {
                SeriesStep::Finish
            }
        },
    }
}

} // verus!
