use hypotest::student::{recurrence_degrees, student_t_regime, ArgClass, DfClass, StudentRegime};

#[test]
fn nan_argument_is_indeterminate() {
    let r = student_t_regime(ArgClass::NotANumber, DfClass::Whole(5), true, true);
    assert_eq!(r, StudentRegime::Indeterminate);
}

#[test]
fn invalid_df_is_indeterminate() {
    assert_eq!(
        student_t_regime(ArgClass::Finite, DfClass::Invalid, true, true),
        StudentRegime::Indeterminate
    );
    assert_eq!(
        student_t_regime(ArgClass::PosInfinite, DfClass::Invalid, false, false),
        StudentRegime::Indeterminate
    );
    assert_eq!(
        student_t_regime(ArgClass::Finite, DfClass::Whole(0), true, true),
        StudentRegime::Indeterminate
    );
}

#[test]
fn infinite_arguments_give_zero_and_one() {
    for df in [DfClass::Infinite, DfClass::Fractional, DfClass::Whole(1), DfClass::Whole(300)] {
        assert_eq!(student_t_regime(ArgClass::NegInfinite, df, false, false), StudentRegime::Zero);
        assert_eq!(student_t_regime(ArgClass::PosInfinite, df, true, true), StudentRegime::One);
    }
}

#[test]
fn infinite_df_is_normal() {
    for (below_df, below_four) in [(false, false), (false, true), (true, false), (true, true)] {
        assert_eq!(
            student_t_regime(ArgClass::Finite, DfClass::Infinite, below_df, below_four),
            StudentRegime::Normal
        );
    }
}

#[test]
fn fractional_and_large_df_are_asymptotic() {
    assert_eq!(
        student_t_regime(ArgClass::Finite, DfClass::Fractional, false, false),
        StudentRegime::Asymptotic
    );
    assert_eq!(
        student_t_regime(ArgClass::Finite, DfClass::Whole(201), false, false),
        StudentRegime::Asymptotic
    );
    assert_eq!(
        student_t_regime(ArgClass::Finite, DfClass::Whole(u64::MAX), false, false),
        StudentRegime::Asymptotic
    );
    assert_eq!(
        student_t_regime(ArgClass::Finite, DfClass::Whole(20), true, false),
        StudentRegime::Asymptotic
    );
}

#[test]
fn moderate_df_with_large_t_uses_tail_series() {
    assert_eq!(
        student_t_regime(ArgClass::Finite, DfClass::Whole(20), false, false),
        StudentRegime::Tail(20)
    );
    assert_eq!(
        student_t_regime(ArgClass::Finite, DfClass::Whole(200), false, true),
        StudentRegime::Tail(200)
    );
}

#[test]
fn small_df_chooses_between_cosine_and_tail() {
    assert_eq!(
        student_t_regime(ArgClass::Finite, DfClass::Whole(5), true, true),
        StudentRegime::Cosine(5)
    );
    assert_eq!(
        student_t_regime(ArgClass::Finite, DfClass::Whole(19), false, true),
        StudentRegime::Cosine(19)
    );
    assert_eq!(
        student_t_regime(ArgClass::Finite, DfClass::Whole(5), false, false),
        StudentRegime::Tail(5)
    );
    assert_eq!(
        student_t_regime(ArgClass::Finite, DfClass::Whole(1), true, false),
        StudentRegime::Tail(1)
    );
}

#[test]
fn recurrence_steps_down_by_two() {
    assert_eq!(recurrence_degrees(7), vec![7, 5, 3]);
    assert_eq!(recurrence_degrees(6), vec![6, 4, 2]);
    assert_eq!(recurrence_degrees(2), vec![2]);
    assert_eq!(recurrence_degrees(1), Vec::<u64>::new());
    assert_eq!(recurrence_degrees(0), Vec::<u64>::new());
}
