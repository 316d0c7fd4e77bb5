use combustion_ble::prediction::{
    PredictionInfo, PredictionMode, PredictionState, PredictionType,
};

#[test]
fn test_prediction_state_from_raw() {
    assert_eq!(PredictionState::from_raw(0), PredictionState::ProbeNotInserted);
    assert_eq!(PredictionState::from_raw(3), PredictionState::Predicting);
    assert_eq!(PredictionState::from_raw(4), PredictionState::RemovalPredictionDone);
    assert_eq!(PredictionState::from_raw(255), PredictionState::Unknown);
}

#[test]
fn test_prediction_state_methods() {
    assert!(PredictionState::Predicting.is_predicting());
    assert!(!PredictionState::Warming.is_predicting());
    assert!(PredictionState::RemovalPredictionDone.is_done());
    assert!(!PredictionState::Predicting.is_done());
}

#[test]
fn test_prediction_mode_from_raw() {
    assert_eq!(PredictionMode::from_raw(0), PredictionMode::Inactive);
    assert_eq!(PredictionMode::from_raw(1), PredictionMode::TimeToRemoval);
    assert_eq!(PredictionMode::from_raw(2), PredictionMode::RemovalAndResting);
    assert_eq!(PredictionMode::from_raw(100), PredictionMode::Reserved);
}

#[test]
fn test_prediction_type_from_raw() {
    assert_eq!(PredictionType::from_raw(0), PredictionType::Inactive);
    assert_eq!(PredictionType::from_raw(1), PredictionType::Removal);
    assert_eq!(PredictionType::from_raw(2), PredictionType::Resting);
}

#[test]
fn test_prediction_info_time_formatted() {
    let mut info = PredictionInfo::new();
    info.prediction_value_seconds = 125;
    assert_eq!(info.prediction_time_formatted(), (2, 5));
}

#[test]
fn test_prediction_info_temperature_progress() {
    // Target 63.0, start 20.0, estimate 41.5 degrees: half way.
    let mut info = PredictionInfo::new();
    info.set_point_deci = 630;
    info.heat_start_deci = 200;
    info.estimated_core_deci = 415;

    assert_eq!(info.temperature_progress(), Some(50));
}

#[test]
fn test_prediction_info_temperature_progress_edge_cases() {
    // Same start and target temperature: undefined.
    let mut info = PredictionInfo::new();
    info.set_point_deci = 630;
    info.heat_start_deci = 630;
    info.estimated_core_deci = 630;
    assert_eq!(info.temperature_progress(), None);

    // Over the target temperature: clamped to 100.
    let mut info = PredictionInfo::new();
    info.set_point_deci = 630;
    info.heat_start_deci = 200;
    info.estimated_core_deci = 700;
    assert_eq!(info.temperature_progress(), Some(100));

    // Below the start temperature: clamped to 0.
    let mut info = PredictionInfo::new();
    info.set_point_deci = 630;
    info.heat_start_deci = 200;
    info.estimated_core_deci = 150;
    assert_eq!(info.temperature_progress(), Some(0));
}
