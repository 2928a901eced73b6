use keba_home_api::session_energy::{
    compute_session_kwh, EnergyComputationError, EnergySnapshot, EnergySource, EnergyWarning,
};

#[test]
fn uses_present_session_delta_when_available() {
    let start = EnergySnapshot {
        present_session_mwh: Some(1_200_000),
        total_mwh: Some(200_000_000),
    };
    let end = EnergySnapshot {
        present_session_mwh: Some(10_800_000),
        total_mwh: Some(210_000_000),
    };

    let result = compute_session_kwh(Some(&start), &end).expect("computation must succeed");

    assert_eq!(result.source, EnergySource::PresentSessionDelta);
    assert_eq!(result.mwh, 9_600_000);
    assert!(result.warnings.is_empty());
}

#[test]
fn clamps_negative_present_session_delta() {
    let start = EnergySnapshot {
        present_session_mwh: Some(10_000_000),
        total_mwh: None,
    };
    let end = EnergySnapshot {
        present_session_mwh: Some(3_000_000),
        total_mwh: None,
    };

    let result = compute_session_kwh(Some(&start), &end).expect("computation must succeed");

    assert_eq!(result.source, EnergySource::PresentSessionDelta);
    assert_eq!(result.mwh, 0);
    assert_eq!(
        result.warnings,
        vec![EnergyWarning::NegativePresentSessionDeltaClamped]
    );
}

#[test]
fn uses_present_session_absolute_when_start_missing() {
    let end = EnergySnapshot {
        present_session_mwh: Some(8_400_000),
        total_mwh: Some(110_000_000),
    };

    let result = compute_session_kwh(None, &end).expect("computation must succeed");

    assert_eq!(result.source, EnergySource::PresentSession);
    assert_eq!(result.mwh, 8_400_000);
    assert!(result.warnings.is_empty());
}

#[test]
fn falls_back_to_total_delta_when_present_missing() {
    let start = EnergySnapshot {
        present_session_mwh: None,
        total_mwh: Some(100_500_000),
    };
    let end = EnergySnapshot {
        present_session_mwh: None,
        total_mwh: Some(110_500_000),
    };

    let result = compute_session_kwh(Some(&start), &end).expect("computation must succeed");

    assert_eq!(result.source, EnergySource::TotalDelta);
    assert_eq!(result.mwh, 10_000_000);
    assert!(result.warnings.is_empty());
}

#[test]
fn clamps_negative_total_delta() {
    let start = EnergySnapshot {
        present_session_mwh: None,
        total_mwh: Some(120_000_000),
    };
    let end = EnergySnapshot {
        present_session_mwh: None,
        total_mwh: Some(110_000_000),
    };

    let result = compute_session_kwh(Some(&start), &end).expect("computation must succeed");

    assert_eq!(result.source, EnergySource::TotalDelta);
    assert_eq!(result.mwh, 0);
    assert_eq!(
        result.warnings,
        vec![EnergyWarning::NegativeTotalDeltaClamped]
    );
}

#[test]
fn fails_when_no_usable_energy_data_exists() {
    let start = EnergySnapshot {
        present_session_mwh: None,
        total_mwh: None,
    };
    let end = EnergySnapshot {
        present_session_mwh: None,
        total_mwh: None,
    };

    let result = compute_session_kwh(Some(&start), &end);

    assert_eq!(result, Err(EnergyComputationError::NoUsableEnergyData));
}

#[test]
fn clamps_negative_present_value_without_start() {
    let end = EnergySnapshot {
        present_session_mwh: Some(-5),
        total_mwh: None,
    };
    let result = compute_session_kwh(None, &end).expect("computation must succeed");
    assert_eq!(result.source, EnergySource::PresentSession);
    assert_eq!(result.mwh, 0);
    assert_eq!(
        result.warnings,
        vec![EnergyWarning::NegativePresentSessionValueClamped]
    );
}

#[test]
fn present_session_wins_over_totals_and_result_is_never_negative() {
    let start = EnergySnapshot {
        present_session_mwh: Some(5_000),
        total_mwh: Some(1_000),
    };
    let end = EnergySnapshot {
        present_session_mwh: Some(7_000),
        total_mwh: Some(900_000),
    };
    let result = compute_session_kwh(Some(&start), &end).expect("computation must succeed");
    assert_eq!(result.source, EnergySource::PresentSessionDelta);
    assert_eq!(result.mwh, 2_000);

    let end_without_present = EnergySnapshot {
        present_session_mwh: None,
        total_mwh: Some(i64::MAX),
    };
    let widest = EnergySnapshot {
        present_session_mwh: None,
        total_mwh: Some(i64::MIN),
    };
    let result = compute_session_kwh(Some(&widest), &end_without_present).expect("computation must succeed");
    assert_eq!(result.source, EnergySource::TotalDelta);
    assert_eq!(result.mwh, u64::MAX);
}

#[test]
fn totals_without_start_are_not_usable() {
    let end = EnergySnapshot {
        present_session_mwh: None,
        total_mwh: Some(10),
    };
    assert_eq!(
        compute_session_kwh(None, &end),
        Err(EnergyComputationError::NoUsableEnergyData)
    );
    assert_eq!(
        EnergyComputationError::NoUsableEnergyData.to_string(),
        "unable to compute session energy: no usable energy data"
    );
}
