use clone_bench::{summarize, Stats, StatsError};

#[test]
fn summarize_empty_is_an_error() {
    assert_eq!(summarize(&vec![]), Err(StatsError::Empty));
}

#[test]
fn summarize_truncates_the_mean() {
    let st = summarize(&vec![5, 1, 9]).unwrap();
    assert_eq!(st, Stats { mean: 5, min: 1, max: 9 });
}

#[test]
fn summarize_constant_series() {
    let st = summarize(&vec![10, 10, 10, 10]).unwrap();
    assert_eq!(st, Stats { mean: 10, min: 10, max: 10 });
}

#[test]
fn summarize_single_value() {
    let st = summarize(&vec![7]).unwrap();
    assert_eq!(st, Stats { mean: 7, min: 7, max: 7 });
}

#[test]
fn summarize_mean_rounds_down() {
    let st = summarize(&vec![1, 2]).unwrap();
    assert_eq!(st.mean, 1);
    assert_eq!(st.min, 1);
    assert_eq!(st.max, 2);
}

#[test]
fn summarize_extremes_fit() {
    let st = summarize(&vec![u128::MAX, 0]).unwrap();
    assert_eq!(st.mean, u128::MAX / 2);
    assert_eq!(st.min, 0);
    assert_eq!(st.max, u128::MAX);
}

#[test]
fn summarize_overflow_is_an_error() {
    assert_eq!(summarize(&vec![u128::MAX, 1]), Err(StatsError::Overflow));
}

#[test]
fn describe_lists_mean_min_max() {
    let st = Stats { mean: 12, min: 3, max: 40 };
    assert_eq!(st.describe(), "mean: \t12, \tmin: \t3, \tmax: \t40\t");
}
