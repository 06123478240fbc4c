use nexum::score::Score;
use nexum::shadow::{compare_execution, ExecutionResult};

fn as_number(score: &Score) -> f64 {
    f64::from_bits(score.bits)
}

#[test]
fn parity_report_is_full_match_when_outputs_align() {
    let primary = ExecutionResult {
        capsule_id: "cap-parity-1".into(),
        step_count: 6,
        duration_ms: 4200,
        attention_priority: "active".into(),
    };
    let candidate = primary.clone();

    let report = compare_execution(&primary, &candidate);
    assert!(report.matches);
    assert!(report.mismatches.is_empty());
    assert_eq!(as_number(&report.parity_score), 1.0);
}

#[test]
fn parity_report_lists_specific_differences() {
    let primary = ExecutionResult {
        capsule_id: "cap-parity-2".into(),
        step_count: 6,
        duration_ms: 4200,
        attention_priority: "active".into(),
    };
    let candidate = ExecutionResult {
        capsule_id: "cap-parity-2".into(),
        step_count: 5,
        duration_ms: 6800,
        attention_priority: "passive".into(),
    };

    let report = compare_execution(&primary, &candidate);
    assert!(!report.matches);
    assert!(report.mismatches.iter().any(|m| m.contains("step_count")));
    assert!(report.mismatches.iter().any(|m| m.contains("duration_ms")));
    assert!(report
        .mismatches
        .iter()
        .any(|m| m.contains("attention_priority")));
    assert!(as_number(&report.parity_score) < 1.0);
    assert_eq!(as_number(&report.parity_score), 0.25);
    assert_eq!(report.parity_score.label, "0.25");
    assert_eq!(
        report.mismatches,
        vec![
            "step_count mismatch: primary=6, candidate=5".to_string(),
            "duration_ms mismatch: primary=4200, candidate=6800, delta=2600".to_string(),
            "attention_priority mismatch: primary=active, candidate=passive".to_string(),
        ]
    );
}

#[test]
fn durations_within_the_tolerance_add_no_mismatch() {
    let primary = ExecutionResult {
        capsule_id: "cap-parity-3".into(),
        step_count: 6,
        duration_ms: 4800,
        attention_priority: "blocking".into(),
    };
    let mut candidate = primary.clone();
    candidate.duration_ms = 5300;
    let report = compare_execution(&primary, &candidate);
    assert!(report.matches);
    assert_eq!(as_number(&report.parity_score), 1.0);

    candidate.duration_ms = 4300;
    assert!(compare_execution(&primary, &candidate).matches);

    candidate.duration_ms = 5301;
    let report = compare_execution(&primary, &candidate);
    assert!(!report.matches);
    assert_eq!(as_number(&report.parity_score), 0.75);
    assert_eq!(report.parity_score.label, format!("{}", 0.75f64));
    assert_eq!(report.mismatches.len(), 1);
}

#[test]
fn scores_are_the_exact_quarters() {
    for passes in 0u8..=4 {
        let score = Score::from_quarters(passes);
        let number = f64::from(passes) / 4.0;
        assert_eq!(score.bits, number.to_bits());
        assert_eq!(score.label, format!("{}", number));
        assert!(score.is_finite());
        assert!(score.in_unit_interval());
    }
    let primary = ExecutionResult {
        capsule_id: "a".into(),
        step_count: 1,
        duration_ms: 0,
        attention_priority: "x".into(),
    };
    let candidate = ExecutionResult {
        capsule_id: "b".into(),
        step_count: 2,
        duration_ms: u64::MAX,
        attention_priority: "y".into(),
    };
    let report = compare_execution(&primary, &candidate);
    assert_eq!(as_number(&report.parity_score), 0.0);
    assert_eq!(report.mismatches.len(), 4);
    assert_eq!(report.capsule_id, "a");
    assert_eq!(
        report.mismatches[2],
        format!(
            "duration_ms mismatch: primary=0, candidate={}, delta={}",
            u64::MAX,
            u64::MAX
        )
    );
}
