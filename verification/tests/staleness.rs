use selfbuild::{classify, needs_rebuild, Freshness};

#[test]
fn unreadable_artifact_is_rebuilt_without_sources() {
    assert!(needs_rebuild(None, &[]));
    assert_eq!(classify(None, &[]), Freshness::Unknown);
}

#[test]
fn unreadable_artifact_is_rebuilt_whatever_the_sources() {
    assert!(needs_rebuild(None, &[Some(1), Some(2)]));
    assert!(needs_rebuild(None, &[None]));
    assert!(needs_rebuild(None, &[Some(i128::MIN)]));
    assert_eq!(classify(None, &[Some(1), Some(2)]), Freshness::Unknown);
}

#[test]
fn older_sources_leave_the_artifact_alone() {
    assert!(!needs_rebuild(Some(100), &[Some(99), Some(50), Some(0)]));
    assert_eq!(classify(Some(100), &[Some(99), Some(50), Some(0)]), Freshness::Fresh);
}

#[test]
fn source_of_equal_age_is_not_newer() {
    assert!(!needs_rebuild(Some(100), &[Some(100)]));
    assert!(!needs_rebuild(Some(100), &[Some(100), Some(100)]));
    assert!(needs_rebuild(Some(100), &[Some(101)]));
}

#[test]
fn artifact_without_sources_is_fresh() {
    assert!(!needs_rebuild(Some(0), &[]));
    assert_eq!(classify(Some(0), &[]), Freshness::Fresh);
}

#[test]
fn newer_source_is_found_in_every_position() {
    assert!(needs_rebuild(Some(100), &[Some(101), Some(1), Some(2)]));
    assert!(needs_rebuild(Some(100), &[Some(1), Some(101), Some(2)]));
    assert!(needs_rebuild(Some(100), &[Some(1), Some(2), Some(101)]));
    assert_eq!(classify(Some(100), &[Some(1), Some(2), Some(101)]), Freshness::Stale);
}

#[test]
fn newer_primary_source_with_older_secondary() {
    let t0: i128 = 1_700_000_000_000_000_000;
    let main_x = Some(t0 + 1);
    let lib_x = Some(t0 - 1);
    assert!(needs_rebuild(Some(t0), &[main_x, lib_x]));
}

#[test]
fn unreadable_source_is_rebuilt() {
    assert!(needs_rebuild(Some(100), &[None]));
    assert!(needs_rebuild(Some(100), &[Some(1), None, Some(2)]));
    assert_eq!(classify(Some(100), &[Some(1), None, Some(2)]), Freshness::Unknown);
}

#[test]
fn first_doubtful_source_decides_the_verdict() {
    assert_eq!(classify(Some(100), &[Some(101), None]), Freshness::Stale);
    assert_eq!(classify(Some(100), &[None, Some(101)]), Freshness::Unknown);
    assert!(needs_rebuild(Some(100), &[Some(101), None]));
    assert!(needs_rebuild(Some(100), &[None, Some(101)]));
}

#[test]
fn times_before_the_epoch_compare_as_numbers() {
    assert!(!needs_rebuild(Some(-5), &[Some(-6), Some(-5)]));
    assert!(needs_rebuild(Some(-5), &[Some(-4)]));
    assert!(needs_rebuild(Some(i128::MIN), &[Some(i128::MAX)]));
    assert!(!needs_rebuild(Some(i128::MAX), &[Some(i128::MIN), Some(i128::MAX)]));
}

#[test]
fn only_a_fresh_verdict_keeps_the_artifact() {
    assert!(!Freshness::Fresh.needs_rebuild());
    assert!(Freshness::Stale.needs_rebuild());
    assert!(Freshness::Unknown.needs_rebuild());
}

#[test]
fn decision_agrees_with_verdict() {
    let cases: Vec<(Option<i128>, Vec<Option<i128>>)> = vec![
        (None, vec![]),
        (Some(3), vec![]),
        (Some(3), vec![Some(3)]),
        (Some(3), vec![Some(4)]),
        (Some(3), vec![None]),
        (Some(3), vec![Some(1), Some(2), Some(3), Some(4), None]),
        (None, vec![Some(1)]),
    ];
    for (artifact, sources) in cases {
        assert_eq!(needs_rebuild(artifact, &sources), classify(artifact, &sources) != Freshness::Fresh);
    }
}
