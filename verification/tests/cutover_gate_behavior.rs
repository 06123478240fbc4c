use nexum::cutover::{evaluate_cutover, Capability, CutoverInput};
use nexum::score::Score;

fn score(value: f64) -> Score {
    Score::new(value.to_bits(), &format!("{}", value))
}

#[test]
fn allows_cutover_when_all_gates_pass() {
    let decision = evaluate_cutover(&CutoverInput {
        capability: Capability::Routing,
        parity_score: score(0.98),
        min_parity_score: score(0.95),
        critical_events: 0,
        max_critical_events: 0,
        shadow_mode_enabled: true,
    });

    assert!(decision.allowed);
    assert!(decision.reasons.is_empty());
    assert_eq!(
        decision.flag_to_enable,
        Some("routing_control_plane".into())
    );
}

#[test]
fn denies_cutover_when_shadow_mode_disabled() {
    let decision = evaluate_cutover(&CutoverInput {
        capability: Capability::Restore,
        parity_score: score(0.99),
        min_parity_score: score(0.95),
        critical_events: 0,
        max_critical_events: 0,
        shadow_mode_enabled: false,
    });

    assert!(!decision.allowed);
    assert!(decision.reasons.iter().any(|r| r.contains("shadow_mode")));
    assert_eq!(decision.flag_to_enable, None);
}

#[test]
fn denies_cutover_when_parity_is_below_threshold() {
    let decision = evaluate_cutover(&CutoverInput {
        capability: Capability::Attention,
        parity_score: score(0.80),
        min_parity_score: score(0.95),
        critical_events: 0,
        max_critical_events: 0,
        shadow_mode_enabled: true,
    });

    assert!(!decision.allowed);
    assert!(decision.reasons.iter().any(|r| r.contains("parity")));
    assert_eq!(
        decision.reasons,
        vec!["parity below threshold: 0.8 < 0.95".to_string()]
    );
}

#[test]
fn denies_cutover_when_critical_events_exceed_limit() {
    let decision = evaluate_cutover(&CutoverInput {
        capability: Capability::Routing,
        parity_score: score(0.99),
        min_parity_score: score(0.95),
        critical_events: 3,
        max_critical_events: 0,
        shadow_mode_enabled: true,
    });

    assert!(!decision.allowed);
    assert!(decision
        .reasons
        .iter()
        .any(|r| r.contains("critical events")));
    assert_eq!(
        decision.reasons,
        vec!["critical events exceeded: 3 > 0".to_string()]
    );
}

#[test]
fn denies_cutover_when_parity_is_not_finite() {
    let decision = evaluate_cutover(&CutoverInput {
        capability: Capability::Routing,
        parity_score: score(f64::NAN),
        min_parity_score: score(0.95),
        critical_events: 0,
        max_critical_events: 0,
        shadow_mode_enabled: true,
    });

    assert!(!decision.allowed);
    assert!(decision.reasons.iter().any(|r| r.contains("finite")));
}

#[test]
fn denies_cutover_when_parity_is_out_of_range() {
    let decision = evaluate_cutover(&CutoverInput {
        capability: Capability::Routing,
        parity_score: score(1.1),
        min_parity_score: score(0.95),
        critical_events: 0,
        max_critical_events: 0,
        shadow_mode_enabled: true,
    });

    assert!(!decision.allowed);
    assert!(decision.reasons.iter().any(|r| r.contains("between 0 and 1")));
}

#[test]
fn gates_agree_with_the_numbers_themselves() {
    let samples = [
        0.0,
        -0.0,
        f64::MIN_POSITIVE,
        5e-324,
        0.25,
        0.5,
        0.949999,
        0.95,
        0.950001,
        1.0,
        1.0000000000000002,
        2.0,
        -0.5,
        -1.0,
        f64::INFINITY,
        f64::NEG_INFINITY,
        f64::NAN,
        f64::MAX,
    ];
    for parity in samples {
        for min in samples {
            let decision = evaluate_cutover(&CutoverInput {
                capability: Capability::Restore,
                parity_score: score(parity),
                min_parity_score: score(min),
                critical_events: 1,
                max_critical_events: 1,
                shadow_mode_enabled: true,
            });
            let expected = parity.is_finite()
                && min.is_finite()
                && (0.0..=1.0).contains(&parity)
                && (0.0..=1.0).contains(&min)
                && parity >= min;
            assert_eq!(decision.allowed, expected, "parity {parity} min {min}");
            assert_eq!(score(parity).is_finite(), parity.is_finite());
            assert_eq!(
                score(parity).in_unit_interval(),
                (0.0..=1.0).contains(&parity)
            );
        }
    }
}

#[test]
fn every_failed_gate_gives_its_reason_in_order() {
    let decision = evaluate_cutover(&CutoverInput {
        capability: Capability::Attention,
        parity_score: score(f64::INFINITY),
        min_parity_score: score(0.5),
        critical_events: 7,
        max_critical_events: 6,
        shadow_mode_enabled: false,
    });
    assert!(!decision.allowed);
    assert_eq!(
        decision.reasons,
        vec![
            "shadow_mode must be enabled".to_string(),
            "parity values must be finite".to_string(),
            "critical events exceeded: 7 > 6".to_string(),
        ]
    );
    assert_eq!(decision.flag_to_enable, None);
    assert_eq!(decision.capability, Capability::Attention);
}
