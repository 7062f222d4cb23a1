use std::rc::Rc;
use std::sync::Arc;

use clone_bench::{
    clone_str, dimensions_or_default, generate_random_string, measure_trials, plot_values,
    run_matrix, BenchConfig, Dimensions, Handle, StatsError, StrType, MEDIUM, SMALL,
    SMALL_MEDIUM,
};

#[test]
fn generated_payload_has_the_requested_length() {
    for size in [0usize, 1, 32, 256, 1024] {
        let s = generate_random_string(size);
        assert_eq!(s.chars().count(), size);
        assert!(s.chars().all(|c| c.is_ascii_alphanumeric()));
    }
}

#[test]
fn generated_payloads_differ() {
    assert_ne!(generate_random_string(64), generate_random_string(64));
}

#[test]
fn duplicate_preserves_content() {
    for kind in [StrType::StringType, StrType::RcType, StrType::ArcType] {
        let p = generate_random_string(100);
        let h = Handle::wrap(kind, p.clone());
        assert_eq!(h.kind(), kind);
        let d = h.duplicate();
        assert_eq!(d.kind(), kind);
        let text: &str = match &d {
            Handle::Owned(s) => s.as_str(),
            Handle::Shared(r) => &**r,
            Handle::Atomic(a) => &**a,
        };
        assert_eq!(text, p);
    }
}

#[test]
fn exclusive_duplicate_is_independent() {
    let h = Handle::wrap(StrType::StringType, String::from("abc"));
    let d = h.duplicate();
    let (Handle::Owned(orig), Handle::Owned(mut copy)) = (h, d) else {
        panic!("owned handle expected");
    };
    assert_ne!(orig.as_ptr(), copy.as_ptr());
    copy.push_str("def");
    copy.replace_range(0..1, "z");
    assert_eq!(orig, "abc");
    assert_eq!(copy, "zbcdef");
}

#[test]
fn shared_duplicates_alias() {
    let h = Handle::wrap(StrType::RcType, String::from("abc"));
    let d = h.duplicate();
    match (&h, &d) {
        (Handle::Shared(a), Handle::Shared(b)) => {
            assert!(Rc::ptr_eq(a, b));
            assert_eq!(Rc::strong_count(a), 2);
        }
        _ => panic!("shared handle expected"),
    }
    let h = Handle::wrap(StrType::ArcType, String::from("abc"));
    let d = h.duplicate();
    match (&h, &d) {
        (Handle::Atomic(a), Handle::Atomic(b)) => {
            assert!(Arc::ptr_eq(a, b));
            assert_eq!(Arc::strong_count(a), 2);
        }
        _ => panic!("atomic handle expected"),
    }
}

#[test]
fn measure_records_one_duration_per_trial() {
    assert_eq!(measure_trials(StrType::RcType, 10, 32).len(), 10);
    assert!(measure_trials(StrType::ArcType, 0, 32).is_empty());
}

#[test]
fn clone_str_summarizes_its_series() {
    let (st, values) = clone_str(StrType::StringType, 20, 64).unwrap();
    assert_eq!(values.len(), 20);
    assert_eq!(st.min, *values.iter().min().unwrap());
    assert_eq!(st.max, *values.iter().max().unwrap());
    assert_eq!(st.mean, values.iter().sum::<u128>() / 20);
}

#[test]
fn clone_str_without_trials_fails() {
    assert!(matches!(clone_str(StrType::RcType, 0, 8), Err(StatsError::Empty)));
}

#[test]
fn exclusive_copy_is_slower_than_shared() {
    let mut wins = 0;
    for _ in 0..5 {
        let (exclusive, _) = clone_str(StrType::StringType, 100, 1024).unwrap();
        let (shared, _) = clone_str(StrType::RcType, 100, 1024).unwrap();
        if exclusive.mean > shared.mean {
            wins += 1;
        }
    }
    assert!(wins >= 3, "exclusive copy was slower in only {} of 5 rounds", wins);
}

#[test]
fn matrix_covers_every_size_and_strategy() {
    let config = BenchConfig { essays: 3, sizes: vec![1, 16] };
    let reports = run_matrix(&config);
    assert_eq!(reports.len(), 2);
    assert_eq!(reports[0].size, 1);
    assert_eq!(reports[1].size, 16);
    for r in &reports {
        for run in [&r.string, &r.rc, &r.arc] {
            assert_eq!(run.as_ref().unwrap().1.len(), 3);
        }
    }
}

#[test]
fn standard_config_skips_the_large_sizes() {
    let c = BenchConfig::standard();
    assert_eq!(c.essays, 2048);
    assert_eq!(c.sizes, vec![SMALL, SMALL_MEDIUM, MEDIUM]);
}

#[test]
fn dimensions_default_and_given() {
    let d = Dimensions::default();
    assert_eq!((d.x, d.y), (300, 1000));
    let g = Dimensions::new(50, 60);
    assert_eq!((g.x, g.y), (50, 60));
    assert_eq!(dimensions_or_default(Some(g)), g);
    assert_eq!(dimensions_or_default(None), d);
}

#[test]
fn plot_values_narrow_or_fail() {
    assert_eq!(plot_values(&vec![0, 7, u32::MAX as u128]), Some(vec![0, 7, u32::MAX]));
    assert_eq!(plot_values(&vec![1, u32::MAX as u128 + 1]), None);
    assert_eq!(plot_values(&vec![]), Some(vec![]));
}
