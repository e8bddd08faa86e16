use vstd::prelude::*;

verus! {

/// Where the argument `t` of the Student's t distribution function lies on
/// the extended real line.
#[derive(Debug, Clone, Copy, PartialEq, Eq, Structural)]
pub enum ArgClass {
    NotANumber,
    NegInfinite,
    PosInfinite,
    Finite,
}

/// The degrees of freedom `n` of the Student's t distribution.
///
/// `Invalid` stands for NaN or a value below one, `Fractional` for a finite
/// value that is not a whole number, and `Whole(k)` for a finite whole
/// number `k` (saturated at `u64::MAX`).
#[derive(Debug, Clone, Copy, PartialEq, Eq, Structural)]
pub enum DfClass {
    Invalid,
    Infinite,
    Fractional,
    Whole(u64),
}

/// The method by which the distribution function is evaluated.
#[derive(Debug, Clone, Copy, PartialEq, Eq, Structural)]
pub enum StudentRegime {
    /// The value is undefined: NaN argument or invalid degrees of freedom.
    Indeterminate,
    /// The argument is minus infinity: the value is 0.
    Zero,
    /// The argument is plus infinity: the value is 1.
    One,
    /// Infinite degrees of freedom: the standard normal distribution function.
    Normal,
    /// Cornish-Fisher style normal approximation.
    Asymptotic,
    /// Nested cosine series for small whole degrees of freedom and small `t`.
    Cosine(u64),
    /// Tail series for small whole degrees of freedom and large `t`.
    Tail(u64),
}

/// Below this many degrees of freedom the series regimes may be chosen.
pub const SMALL_DF: u64 = 20;

/// Above this many degrees of freedom the asymptotic regime is always chosen.
pub const LARGE_DF: u64 = 200;

pub open spec fn df_is_valid(df: DfClass) -> bool {
    match df {
        DfClass::Invalid => false,
        DfClass::Whole(k) => k >= 1,
        _ => true,
    }
}

/// The regime that evaluates P(T <= t) with `n` degrees of freedom, given
/// the class of `t`, the class of `n`, whether t^2 < n and whether t^2 < 4.
pub open spec fn regime_of(
    x: ArgClass,
    df: DfClass,
    t_sq_below_df: bool,
    t_sq_below_four: bool,
) -> StudentRegime {
    if x == ArgClass::NotANumber || !df_is_valid(df) {
        StudentRegime::Indeterminate
    } else if x == ArgClass::NegInfinite {
        StudentRegime::Zero
    } else if x == ArgClass::PosInfinite {
        StudentRegime::One
    } else {
        match df {
            DfClass::Whole(k) => {
                if (k >= SMALL_DF && t_sq_below_df) || k > LARGE_DF {
                    StudentRegime::Asymptotic
                } else if k < SMALL_DF && t_sq_below_four {
                    StudentRegime::Cosine(k)
                } else {
                    StudentRegime::Tail(k)
                }
            },
            DfClass::Infinite => StudentRegime::Normal,
            _ => StudentRegime::Asymptotic,
        }
    }
}

/// Chooses how P(T <= t) is evaluated.
///
/// `t_sq_below_df` tells whether t^2 < n, `t_sq_below_four` whether t^2 < 4.
pub fn student_t_regime(
    x: ArgClass,
    df: DfClass,
    t_sq_below_df: bool,
    t_sq_below_four: bool,
) -> (r: StudentRegime)
    ensures
        r == regime_of(x, df, t_sq_below_df, t_sq_below_four),
{
    let valid = match df {
        DfClass::Invalid => false,
        DfClass::Whole(k) => k >= 1,
        _ => true,
    };
    if !valid {
        return StudentRegime::Indeterminate;
    }
    match x {
        ArgClass::NotANumber => StudentRegime::Indeterminate,
        ArgClass::NegInfinite => StudentRegime::Zero,
        ArgClass::PosInfinite => StudentRegime::One,
        ArgClass::Finite => match df {
            DfClass::Infinite => StudentRegime::Normal,
            DfClass::Whole(k) => {
                if k > LARGE_DF || (k >= SMALL_DF && t_sq_below_df) {
                    StudentRegime::Asymptotic
                } else if k < SMALL_DF && t_sq_below_four {
                    StudentRegime::Cosine(k)
                } else {
                    StudentRegime::Tail(k)
                }
            },
            _ => StudentRegime::Asymptotic,
        },
    }
}

/// The degrees at which the backward recurrence of the series regimes takes
/// a step, starting from `top` and going down by two while above one.
pub open spec fn descending_degrees(top: int) -> Seq<u64>
    decreases top,
{
    if top <= 1 {
        Seq::empty()
    } else {
        seq![top as u64] + descending_degrees(top - 2)
    }
}

/// Lists the degrees `top, top - 2, ...` that are greater than one.
pub fn recurrence_degrees(top: u64) -> (r: Vec<u64>)
    ensures
        r@ == descending_degrees(top as int),
{
    let mut v: Vec<u64> = Vec::new();
    let mut m: u64 = top;
    while m > 1
        invariant
            m <= top,
            v@ + descending_degrees(m as int) == descending_degrees(top as int),
        decreases m,
    {
        assert(v@.push(m) + descending_degrees(m - 2) =~= v@ + descending_degrees(m as int));
        v.push(m);
        m = m - 2;
    }
    assert(v@ + descending_degrees(m as int) =~= v@);
    v
}

/// With infinite degrees of freedom the distribution function is the
/// standard normal one at every finite argument.
pub proof fn lemma_infinite_df_is_normal(t_sq_below_df: bool, t_sq_below_four: bool)
    ensures
        regime_of(ArgClass::Finite, DfClass::Infinite, t_sq_below_df, t_sq_below_four)
            == StudentRegime::Normal,
{
}

/// For valid degrees of freedom the distribution function is 0 at minus
/// infinity and 1 at plus infinity.
pub proof fn lemma_infinite_arguments(df: DfClass, t_sq_below_df: bool, t_sq_below_four: bool)
    requires
        df_is_valid(df),
    ensures
        regime_of(ArgClass::NegInfinite, df, t_sq_below_df, t_sq_below_four)
            == StudentRegime::Zero,
        regime_of(ArgClass::PosInfinite, df, t_sq_below_df, t_sq_below_four)
            == StudentRegime::One,
{
}

} // verus!
