use combustion_ble::alarms::AlarmConfig;
use combustion_ble::error::Error;
use combustion_ble::food_safety::{FoodSafeConfig, FoodSafeMode, IntegratedProduct, Serving};
use combustion_ble::preferences::PowerMode;
use combustion_ble::prediction::{PredictionMode, PredictionState, PredictionType};
use combustion_ble::advertising::{BatteryStatus, ProbeMode};
use combustion_ble::status::ProbeStatus;

fn create_test_status_data() -> Vec<u8> {
    let mut data = vec![0u8; 50];

    // Bytes 0-3: min sequence 10; bytes 4-7: max sequence 100.
    data[0..4].copy_from_slice(&10u32.to_le_bytes());
    data[4..8].copy_from_slice(&100u32.to_le_bytes());

    // Bytes 8-20: packed temperatures, all zero.

    // Byte 21: mode 0, colour 1, id 0.
    data[21] = 0b00000100;

    // Byte 22: battery fine, default virtual selection.
    data[22] = 0x00;

    // Bytes 23-29: prediction block. State Predicting (3), mode
    // TimeToRemoval (1), type Removal (1).
    data[23] = 0x53;
    // Set point 63.0 degrees: raw 630.
    data[24] = 0x76;
    data[25] = 0x02;
    // Heat start 20.0 degrees: raw 200.
    data[25] |= ((200 & 0x3F) << 2) as u8;
    data[26] = ((200 >> 6) & 0x0F) as u8;
    // Predicted seconds: 300.
    data[26] |= ((300 & 0x0F) << 4) as u8;
    data[27] = ((300 >> 4) & 0xFF) as u8;
    data[28] = ((300 >> 12) & 0x1F) as u8;
    // Estimated core 45.0 degrees: raw (450 + 200) = 650.
    data[28] |= ((650 & 0x07) << 5) as u8;
    data[29] = ((650 >> 3) & 0xFF) as u8;

    // Byte 48: overheat bitmask.
    data[48] = 0x00;

    data
}

#[test]
fn test_probe_status_parse() {
    let data = create_test_status_data();
    let status = ProbeStatus::parse(&data).unwrap();

    assert_eq!(status.min_sequence_number, 10);
    assert_eq!(status.max_sequence_number, 100);
    assert_eq!(status.mode, ProbeMode::Normal);
    assert_eq!(status.battery_status, BatteryStatus::Okay);

    let prediction = status.prediction.expect("prediction should be present");
    assert_eq!(prediction.state, PredictionState::Predicting);
    assert_eq!(prediction.mode, PredictionMode::TimeToRemoval);
    assert_eq!(prediction.prediction_type, PredictionType::Removal);
}

#[test]
fn test_probe_status_too_short() {
    let data = vec![0u8; 10];
    let result = ProbeStatus::parse(&data);
    assert!(result.is_err());
}

#[test]
fn test_available_log_count() {
    let data = create_test_status_data();
    let status = ProbeStatus::parse(&data).unwrap();

    assert_eq!(status.available_log_count(), 91);
    assert!(status.has_logs());
}

#[test]
fn test_prediction_block_exact_values() {
    let data = create_test_status_data();
    let status = ProbeStatus::parse(&data).unwrap();
    let prediction = status.prediction.unwrap();
    assert_eq!(prediction.set_point_deci, 630);
    assert_eq!(prediction.heat_start_deci, 200);
    assert_eq!(prediction.prediction_value_seconds, 300);
    assert_eq!(prediction.estimated_core_deci, 450);
}

#[test]
fn test_minimum_status_payload_has_no_optional_sections() {
    // Exactly 30 bytes decodes with every optional section absent.
    let data = vec![0u8; 30];
    let status = ProbeStatus::parse(&data).unwrap();
    assert!(status.food_safe_config.is_none());
    assert!(status.food_safe_status.is_none());
    assert_eq!(status.overheating.overheating_sensors, 0);
    assert!(status.thermometer_preferences.is_none());
    assert!(status.alarm_config.is_none());

    // 29 bytes fails with a length error naming the 30-byte minimum.
    match ProbeStatus::parse(&vec![0u8; 29]) {
        Err(Error::LengthError { length, minimum }) => {
            assert_eq!(length, 29);
            assert_eq!(minimum, 30);
        }
        other => panic!("expected a length error, got {:?}", other),
    }
}

#[test]
fn test_full_status_payload_carries_all_sections() {
    let mut data = vec![0u8; 94];
    // Food-safety configuration at bytes 30-39.
    let cfg = FoodSafeConfig::integrated(IntegratedProduct::Poultry, Serving::ServedImmediately);
    data[30..40].copy_from_slice(&cfg.to_bytes());
    // Food-safety status at bytes 40-47: state Safe.
    data[40] = 0x01;
    // Overheat byte 48 and preferences byte 49.
    data[48] = 0b0000_0001;
    data[49] = 0x01;
    // Alarm table at bytes 50-93.
    let mut alarms = AlarmConfig::new();
    alarms.set_core_high_alarm(740, true);
    data[50..94].copy_from_slice(&alarms.to_bytes());

    let status = ProbeStatus::parse(&data).unwrap();
    let parsed_cfg = status.food_safe_config.expect("config section");
    assert_eq!(parsed_cfg.mode, FoodSafeMode::Integrated);
    assert_eq!(parsed_cfg.target_log_reduction_deci, 70);
    assert!(status.food_safe_status.expect("status section").is_safe());
    assert!(status.overheating.is_sensor_overheating(0));
    assert_eq!(
        status.thermometer_preferences.expect("preferences").power_mode,
        PowerMode::AlwaysOn
    );
    let parsed_alarms = status.alarm_config.expect("alarm section");
    assert!(parsed_alarms.core_high_alarm().is_enabled());
    assert_eq!(parsed_alarms.core_high_alarm().temperature_deci, 740);
}
